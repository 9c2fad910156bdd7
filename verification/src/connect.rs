//! Connecting: what to ask of the client library, and what to keep of its
//! answer.

use vstd::prelude::*;
use vstd::string::*;
use crate::error::{BridgeError, ErrorKind, ErrorView, plain_error};
use crate::outside::{check_credentials, credentials_refusal};
use crate::registry::Registry;

verus! {

/// What a connect command was given. Each part may come from a flag or, in
/// its absence, from the environment.
#[derive(Debug, Clone, PartialEq, Eq)]
pub struct ConnectRequest {
    pub url: Option<String>,
    pub user: Option<String>,
    pub password: Option<String>,
    pub credentials: Option<String>,
    pub nkey: Option<String>,
}

/// What to ask of the client library.
#[derive(Debug, Clone, PartialEq, Eq)]
pub struct ConnectPlan {
    /// The address to connect to.
    pub url: String,
    /// User and password, where both were given.
    pub login: Option<(String, String)>,
    /// Credentials to authenticate with.
    pub credentials: Option<String>,
    /// A key to authenticate with.
    pub nkey: Option<String>,
}

/// The mathematical content of a [`ConnectPlan`].
pub struct ConnectPlanView {
    pub url: Seq<char>,
    pub login: Option<(Seq<char>, Seq<char>)>,
    pub credentials: Option<Seq<char>>,
    pub nkey: Option<Seq<char>>,
}

/// The mathematical content of an optional text.
pub open spec fn text_view(text: Option<String>) -> Option<Seq<char>> {
    match text {
        Some(s) => Some(s@),
        None => None,
    }
}

impl View for ConnectPlan {
    type V = ConnectPlanView;

    open spec fn view(&self) -> ConnectPlanView {
        ConnectPlanView {
            url: self.url@,
            login: match self.login {
                Some((user, password)) => Some((user@, password@)),
                None => None,
            },
            credentials: text_view(self.credentials),
            nkey: text_view(self.nkey),
        }
    }
}

/// The failure for a user given without a password.
pub open spec fn missing_password() -> ErrorView {
    ErrorView {
        kind: ErrorKind::Protocol,
        message: "Missing `--password` argument for basic authentication"@,
        label: None,
        at: None,
    }
}

/// The failure for a password given without a user.
pub open spec fn missing_user() -> ErrorView {
    ErrorView {
        kind: ErrorKind::Protocol,
        message: "Missing `--user` argument for basic authentication"@,
        label: None,
        at: None,
    }
}

/// The failure for a connection that the client library could not make.
pub open spec fn connect_failed(cause: Seq<char>) -> ErrorView {
    ErrorView {
        kind: ErrorKind::Transport,
        message: "Failed to connect to NATS server"@,
        label: Some(cause),
        at: None,
    }
}

/// What a request asks of the client library, before its credentials are
/// looked at.
///
/// Without an address the local host is meant. User and password go
/// together: one without the other is refused. Credentials and key are
/// passed on as given.
pub open spec fn login_plan(request: ConnectRequest) -> Result<ConnectPlanView, ErrorView> {
    let url = match request.url {
        Some(u) => u@,
        None => "localhost"@,
    };
    match (request.user, request.password) {
        (Some(_), None) => Err(missing_password()),
        (None, Some(_)) => Err(missing_user()),
        (None, None) => Ok(
            ConnectPlanView {
                url,
                login: None,
                credentials: text_view(request.credentials),
                nkey: text_view(request.nkey),
            },
        ),
        (Some(user), Some(password)) => Ok(
            ConnectPlanView {
                url,
                login: Some((user@, password@)),
                credentials: text_view(request.credentials),
                nkey: text_view(request.nkey),
            },
        ),
    }
}

/// What becomes of a plan once the client library has looked at its
/// credentials: a refusal fails the plan with the library's message.
pub open spec fn settled_plan(plan: ConnectPlanView, refusal: Option<Seq<char>>) -> Result<
    ConnectPlanView,
    ErrorView,
> {
    match refusal {
        Some(m) => Err(plain_error(ErrorKind::Transport, m)),
        None => Ok(plan),
    }
}

/// What a request asks of the client library: user and password are looked
/// at first, then the credentials, where there are any.
pub open spec fn connect_plan(request: ConnectRequest) -> Result<ConnectPlanView, ErrorView> {
    match login_plan(request) {
        Err(e) => Err(e),
        Ok(plan) => match plan.credentials {
            Some(credentials) => settled_plan(plan, credentials_refusal(credentials)),
            None => Ok(plan),
        },
    }
}

/// Picks the flag's value where the flag was given, and the environment's
/// otherwise.
pub fn flag_or_env(flag: Option<String>, env: Option<String>) -> (value: Option<String>)
    ensures
        value == if flag is Some {
            flag
        } else {
            env
        },
{
    match flag {
        Some(v) => Some(v),
        None => env,
    }
}

/// Plans a connection from what the command was given, without looking at
/// the credentials.
pub fn plan_login(request: ConnectRequest) -> (plan: Result<ConnectPlan, BridgeError>)
    ensures
        match plan {
            Ok(p) => login_plan(request) == Ok::<ConnectPlanView, ErrorView>(p@),
            Err(e) => login_plan(request) == Err::<ConnectPlanView, ErrorView>(e@),
        },
{
    let ConnectRequest { url, user, password, credentials, nkey } = request;
    let url = match url {
        Some(u) => u,
        None => String::from_str("localhost"),
    };
    match (user, password) {
        (Some(_), None) => Err(
            BridgeError::new(
                ErrorKind::Protocol,
                String::from_str("Missing `--password` argument for basic authentication"),
            ),
        ),
        (None, Some(_)) => Err(
            BridgeError::new(
                ErrorKind::Protocol,
                String::from_str("Missing `--user` argument for basic authentication"),
            ),
        ),
        (None, None) => Ok(ConnectPlan { url, login: None, credentials, nkey }),
        (Some(user), Some(password)) => Ok(
            ConnectPlan { url, login: Some((user, password)), credentials, nkey },
        ),
    }
}

/// Settles a plan with what the client library said of its credentials:
/// `refusal` is the library's message where it refused them.
pub fn settle_plan(plan: ConnectPlan, refusal: Option<String>) -> (settled: Result<
    ConnectPlan,
    BridgeError,
>)
    ensures
        match settled {
            Ok(p) => settled_plan(plan@, text_view(refusal)) == Ok::<ConnectPlanView, ErrorView>(
                p@,
            ),
            Err(e) => settled_plan(plan@, text_view(refusal)) == Err::<ConnectPlanView, ErrorView>(
                e@,
            ),
        },
{
    match refusal {
        Some(m) => Err(BridgeError::transport(m)),
        None => Ok(plan),
    }
}

/// Plans a connection: user and password are looked at first, then the
/// client library is asked whether it accepts the credentials, where there
/// are any.
pub fn plan_connect(request: ConnectRequest) -> (plan: Result<ConnectPlan, BridgeError>)
    ensures
        match plan {
            Ok(p) => connect_plan(request) == Ok::<ConnectPlanView, ErrorView>(p@),
            Err(e) => connect_plan(request) == Err::<ConnectPlanView, ErrorView>(e@),
        },
{
    match plan_login(request) {
        Err(e) => Err(e),
        Ok(plan) => {
            let refusal = match &plan.credentials {
                Some(credentials) => check_credentials(credentials.as_str()),
                None => {
                    return Ok(plan);
                },
            };
            settle_plan(plan, refusal)
        },
    }
}

/// Takes the client library's answer to a connection attempt.
///
/// A new handle replaces the registry's current one. A failure leaves the
/// registry as it was and is reported with the client library's message as its label.
pub fn finish_connect<H: Clone>(registry: &mut Registry<H>, connected: Result<H, String>) -> (done:
    Result<(), BridgeError>)
    ensures
        match connected {
            Ok(handle) => done is Ok && final(registry)@ == Some(handle),
            Err(cause) => {
                &&& done matches Err(e)
                &&& e@ == connect_failed(cause@)
                &&& final(registry)@ == old(registry)@
            },
        },
{
    match connected {
        Ok(handle) => {
            registry.set(handle);
            Ok(())
        },
        Err(cause) => Err(
            BridgeError::with_label(
                ErrorKind::Transport,
                String::from_str("Failed to connect to NATS server"),
                cause,
            ),
        ),
    }
}

} // verus!
