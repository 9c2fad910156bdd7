//! Planning what a publish command sends.
//!
//! A record becomes one message with headers: its `headers` field, where that
//! is a record, gives them, and its `payload` field is required. A list stands
//! for its items, taken in order and to any depth. Any other value is sent as
//! its bytes, without headers. A value that cannot be sent becomes a rejected
//! item of the plan, so that its siblings are still dispatched.

use vstd::prelude::*;
use vstd::string::*;
use crate::error::{BridgeError, ErrorKind, ErrorView, Origin};
use crate::outside::{
    empty_headers, header_entries, header_name_parses, header_value_parses, insert_header,
    no_headers, valid_header_name, valid_header_value,
};
use crate::values::{Content, Datum, Input, header_text, payload_bytes};

verus! {

/// One operation of a publish plan.
#[derive(Debug, PartialEq, Eq)]
pub enum PublishItem {
    /// Publish these bytes.
    Plain { payload: Vec<u8> },
    /// Publish these bytes with these headers.
    WithHeaders { headers: async_nats::HeaderMap, payload: Vec<u8> },
    /// Nothing is sent for this input; the operation fails with this.
    Rejected(BridgeError),
}

/// The mathematical content of a [`PublishItem`].
pub enum PublishItemView {
    Plain { payload: Seq<u8> },
    WithHeaders { headers: Map<Seq<char>, Seq<Seq<char>>>, payload: Seq<u8> },
    Rejected(ErrorView),
}

impl View for PublishItem {
    type V = PublishItemView;

    open spec fn view(&self) -> PublishItemView {
        match *self {
            PublishItem::Plain { payload } => PublishItemView::Plain { payload: payload@ },
            PublishItem::WithHeaders { headers, payload } => PublishItemView::WithHeaders {
                headers: header_entries(headers),
                payload: payload@,
            },
            PublishItem::Rejected(e) => PublishItemView::Rejected(e@),
        }
    }
}

/// The mathematical content of a plan.
pub open spec fn plan_view(plan: Seq<PublishItem>) -> Seq<PublishItemView> {
    plan.map_values(|item: PublishItem| item@)
}

/// The index of the last of the first `n` fields that is named `name`.
pub open spec fn field_index(fields: Seq<(String, Datum)>, name: Seq<char>, n: nat) -> Option<int>
    decreases n,
{
    if n == 0 {
        None
    } else if fields[n - 1].0@ == name {
        Some(n - 1)
    } else {
        field_index(fields, name, (n - 1) as nat)
    }
}

/// The value of the field named `name`: of the last one, where several are.
pub open spec fn find_field(fields: Seq<(String, Datum)>, name: Seq<char>) -> Option<Datum> {
    match field_index(fields, name, fields.len()) {
        Some(i) => Some(fields[i].1),
        None => None,
    }
}

/// The failure for a header whose name the broker client does not accept. Its
/// label is the name and points at the header's value.
pub open spec fn invalid_header_name(name: Seq<char>, at: Origin) -> ErrorView {
    ErrorView {
        kind: ErrorKind::Encoding,
        message: "invalid header name: cannot contain control characters, non-ASCII, or ':'"@,
        label: Some(name),
        at: Some(at),
    }
}

/// The failure for a header whose value the broker client does not accept.
/// Its label is the header's name and points at the value.
pub open spec fn invalid_header_value(name: Seq<char>, at: Origin) -> ErrorView {
    ErrorView {
        kind: ErrorKind::Encoding,
        message: "invalid header value: cannot contain '\\r' or '\\n'"@,
        label: Some(name),
        at: Some(at),
    }
}

/// The failure for a record without a `payload` field. Its label points at
/// the record.
pub open spec fn missing_payload(at: Origin) -> ErrorView {
    ErrorView {
        kind: ErrorKind::Protocol,
        message: "missing payload"@,
        label: Some("input record must contain a payload field"@),
        at: Some(at),
    }
}

/// The header that one field of a `headers` record gives.
///
/// The name is checked first, then the value is coerced to text, then the text
/// is checked.
pub open spec fn header_of(field: (String, Datum)) -> Result<(Seq<char>, Seq<char>), ErrorView> {
    if !valid_header_name(field.0@) {
        Err(invalid_header_name(field.0@, field.1.at))
    } else {
        match header_text(field.1) {
            Err(e) => Err(e),
            Ok(text) => if valid_header_value(text) {
                Ok((field.0@, text))
            } else {
                Err(invalid_header_value(field.0@, field.1.at))
            },
        }
    }
}

/// The headers that the first `n` fields of a `headers` record give, or the
/// failure of the first field that gives none. Each field gives its name one
/// value; of several fields of one name, the last one counts.
pub open spec fn headers_upto(fields: Seq<(String, Datum)>, n: nat) -> Result<
    Map<Seq<char>, Seq<Seq<char>>>,
    ErrorView,
>
    decreases n,
{
    if n == 0 {
        Ok(no_headers())
    } else {
        match headers_upto(fields, (n - 1) as nat) {
            Err(e) => Err(e),
            Ok(headers) => match header_of(fields[n - 1]) {
                Err(e) => Err(e),
                Ok(h) => Ok(headers.insert(h.0, seq![h.1])),
            },
        }
    }
}

/// The headers of a record: those of its `headers` field where that is a
/// record, and none otherwise.
pub open spec fn record_headers(fields: Seq<(String, Datum)>) -> Result<
    Map<Seq<char>, Seq<Seq<char>>>,
    ErrorView,
> {
    match find_field(fields, "headers"@) {
        Some(Datum { content: Content::Record(given), .. }) => headers_upto(given@, given@.len()),
        _ => Ok(no_headers()),
    }
}

/// The operation that a record stands for.
///
/// The headers are settled first, then the payload is looked for, then it is
/// coerced to bytes; the first of these to fail rejects the record.
pub open spec fn publish_record(at: Origin, fields: Seq<(String, Datum)>) -> PublishItemView {
    match record_headers(fields) {
        Err(e) => PublishItemView::Rejected(e),
        Ok(headers) => match find_field(fields, "payload"@) {
            None => PublishItemView::Rejected(missing_payload(at)),
            Some(p) => match payload_bytes(p) {
                Err(e) => PublishItemView::Rejected(e),
                Ok(payload) => PublishItemView::WithHeaders { headers, payload },
            },
        },
    }
}

/// The operation that a value stands for which is neither a record nor a list.
pub open spec fn publish_plain(d: Datum) -> PublishItemView {
    match payload_bytes(d) {
        Ok(payload) => PublishItemView::Plain { payload },
        Err(e) => PublishItemView::Rejected(e),
    }
}

/// The operations that a value stands for, in order.
pub open spec fn publish_plan(d: Datum) -> Seq<PublishItemView>
    decreases d,
    via publish_plan_terminates
{
    match d.content {
        Content::Record(fields) => seq![publish_record(d.at, fields@)],
        Content::List(items) => publish_plan_of(items@),
        _ => seq![publish_plain(d)],
    }
}

/// The operations that a sequence of values stands for, in order.
pub open spec fn publish_plan_of(items: Seq<Datum>) -> Seq<PublishItemView>
    decreases items,
    via publish_plan_of_terminates
{
    if items.len() == 0 {
        Seq::empty()
    } else {
        publish_plan_of(items.drop_last()) + publish_plan(items.last())
    }
}

#[via_fn]
proof fn publish_plan_terminates(d: Datum) {
    broadcast use vstd::std_specs::vec::axiom_vec_decreases_to_view;

}

#[via_fn]
proof fn publish_plan_of_terminates(items: Seq<Datum>) {
    broadcast use vstd::seq::axiom_seq_index_decreases;
    broadcast use vstd::seq::axiom_seq_subrange_decreases;

}

/// The operations that a command's input stands for.
pub open spec fn publish_input_plan(input: Input) -> Seq<PublishItemView> {
    match input {
        Input::Value(d) => publish_plan(d),
        Input::Stream(items) => publish_plan_of(items@),
        _ => Seq::empty(),
    }
}

/// Looks up the field named `name`; of several, the last.
pub fn lookup<'a>(fields: &'a Vec<(String, Datum)>, name: &str) -> (found: Option<&'a Datum>)
    ensures
        match found {
            Some(d) => find_field(fields@, name@) == Some(*d),
            None => find_field(fields@, name@) is None,
        },
{
    let wanted = String::from_str(name);
    let mut found: Option<&'a Datum> = None;
    let mut i: usize = 0;
    while i < fields.len()
        invariant
            i <= fields.len(),
            wanted@ == name@,
            match found {
                Some(d) => field_index(fields@, name@, i as nat) matches Some(k) && fields@[k].1
                    == *d,
                None => field_index(fields@, name@, i as nat) is None,
            },
        decreases fields.len() - i,
    {
        if fields[i].0 == wanted {
            found = Some(&fields[i].1);
        }
        i = i + 1;
    }
    found
}

/// Settles one header from one field of a `headers` record.
pub fn header_from(name: &String, value: &Datum) -> (header: Result<(String, String), BridgeError>)
    ensures
        match header {
            Ok(h) => header_of((*name, *value)) == Ok::<(Seq<char>, Seq<char>), ErrorView>(
                (h.0@, h.1@),
            ),
            Err(e) => header_of((*name, *value)) == Err::<(Seq<char>, Seq<char>), ErrorView>(e@),
        },
{
    if !header_name_parses(name.as_str()) {
        return Err(
            BridgeError::located(
                ErrorKind::Encoding,
                String::from_str(
                    "invalid header name: cannot contain control characters, non-ASCII, or ':'",
                ),
                name.clone(),
                value.at,
            ),
        );
    }
    match value.to_header_text() {
        Err(e) => Err(e),
        Ok(text) => {
            if header_value_parses(text.as_str()) {
                Ok((name.clone(), text))
            } else {
                Err(
                    BridgeError::located(
                        ErrorKind::Encoding,
                        String::from_str("invalid header value: cannot contain '\\r' or '\\n'"),
                        name.clone(),
                        value.at,
                    ),
                )
            }
        },
    }
}

/// Settles the headers that a `headers` record gives.
pub fn headers_from(given: &Vec<(String, Datum)>) -> (headers: Result<
    async_nats::HeaderMap,
    BridgeError,
>)
    ensures
        match headers {
            Ok(hs) => headers_upto(given@, given@.len()) == Ok::<
                Map<Seq<char>, Seq<Seq<char>>>,
                ErrorView,
            >(header_entries(hs)),
            Err(e) => headers_upto(given@, given@.len()) == Err::<
                Map<Seq<char>, Seq<Seq<char>>>,
                ErrorView,
            >(e@),
        },
{
    let mut headers = empty_headers();
    let mut i: usize = 0;
    while i < given.len()
        invariant
            i <= given.len(),
            headers_upto(given@, i as nat) == Ok::<Map<Seq<char>, Seq<Seq<char>>>, ErrorView>(
                header_entries(headers),
            ),
        decreases given.len() - i,
    {
        match header_from(&given[i].0, &given[i].1) {
            Err(e) => {
                proof {
                    lemma_headers_failure_stays(given@, (i + 1) as nat, given@.len());
                }
                return Err(e);
            },
            Ok(h) => {
                insert_header(&mut headers, h.0.as_str(), h.1.as_str());
            },
        }
        i = i + 1;
    }
    Ok(headers)
}

/// Once a prefix of a `headers` record has failed, every longer prefix fails
/// with the same failure.
pub proof fn lemma_headers_failure_stays(fields: Seq<(String, Datum)>, n: nat, m: nat)
    requires
        n <= m,
        headers_upto(fields, n) is Err,
    ensures
        headers_upto(fields, m) == headers_upto(fields, n),
    decreases m,
{
    if n < m {
        lemma_headers_failure_stays(fields, n, (m - 1) as nat);
    }
}

/// Plans the operation that a record stands for. `at` is where the record
/// came from.
pub fn plan_record(at: Origin, fields: &Vec<(String, Datum)>) -> (item: PublishItem)
    ensures
        item@ == publish_record(at, fields@),
{
    let headers = match lookup(fields, "headers") {
        Some(Datum { content: Content::Record(given), .. }) => match headers_from(given) {
            Ok(hs) => hs,
            Err(e) => {
                return PublishItem::Rejected(e);
            },
        },
        _ => empty_headers(),
    };
    match lookup(fields, "payload") {
        None => PublishItem::Rejected(
            BridgeError::located(
                ErrorKind::Protocol,
                String::from_str("missing payload"),
                String::from_str("input record must contain a payload field"),
                at,
            ),
        ),
        Some(p) => match p.to_payload() {
            Err(e) => PublishItem::Rejected(e),
            Ok(payload) => PublishItem::WithHeaders { headers, payload },
        },
    }
}

/// Appends to `plan` the operations that `d` stands for.
pub fn plan_publish_into(d: &Datum, plan: &mut Vec<PublishItem>)
    ensures
        plan_view(final(plan)@) == plan_view(old(plan)@) + publish_plan(*d),
    decreases d,
{
    match &d.content {
        Content::Record(fields) => {
            let item = plan_record(d.at, fields);
            plan.push(item);
            assert(plan_view(plan@) =~= plan_view(old(plan)@) + seq![item@]);
        },
        Content::List(items) => {
            plan_publish_all_into(items, plan);
        },
        _ => {
            let item = match d.to_payload() {
                Ok(payload) => PublishItem::Plain { payload },
                Err(e) => PublishItem::Rejected(e),
            };
            plan.push(item);
            assert(plan_view(plan@) =~= plan_view(old(plan)@) + seq![item@]);
        },
    }
}

/// Appends to `plan` the operations that each of `items` stands for, in order.
pub fn plan_publish_all_into(items: &Vec<Datum>, plan: &mut Vec<PublishItem>)
    ensures
        plan_view(final(plan)@) == plan_view(old(plan)@) + publish_plan_of(items@),
    decreases items,
{
    let mut i: usize = 0;
    assert(plan_view(plan@) =~= plan_view(old(plan)@) + publish_plan_of(
        items@.subrange(0, 0),
    )) by {
        assert(items@.subrange(0, 0).len() == 0);
    }
    while i < items.len()
        invariant
            i <= items.len(),
            plan_view(plan@) == plan_view(old(plan)@) + publish_plan_of(
                items@.subrange(0, i as int),
            ),
        decreases items.len() - i,
    {
        let ghost before = plan_view(plan@);
        plan_publish_into(&items[i], plan);
        proof {
            let upto = items@.subrange(0, i + 1);
            assert(upto.drop_last() =~= items@.subrange(0, i as int));
            assert(upto.last() == items@[i as int]);
            assert(plan_view(plan@) =~= plan_view(old(plan)@) + publish_plan_of(upto));
        }
        i = i + 1;
    }
    assert(items@.subrange(0, items.len() as int) =~= items@);
}

/// Plans what a publish command sends for its input: a value stands for its
/// operations, a stream for those of its values in order, and any other input
/// for none.
pub fn plan_publish(input: &Input) -> (plan: Vec<PublishItem>)
    ensures
        plan_view(plan@) == publish_input_plan(*input),
{
    let mut plan: Vec<PublishItem> = Vec::new();
    assert(plan_view(plan@) =~= Seq::empty());
    match input {
        Input::Value(d) => {
            plan_publish_into(d, &mut plan);
            assert(plan_view(plan@) =~= publish_plan(*d));
        },
        Input::Stream(items) => {
            plan_publish_all_into(items, &mut plan);
            assert(plan_view(plan@) =~= publish_plan_of(items@));
        },
        _ => {},
    }
    plan
}

/// The failure for a message that the client library could not publish.
pub open spec fn publish_failed(cause: Seq<char>) -> ErrorView {
    ErrorView {
        kind: ErrorKind::Transport,
        message: "Failed to publish to NATS subject"@,
        label: Some(cause),
        at: None,
    }
}

/// What one publish operation reports for the client library's answer.
pub open spec fn publish_report_view(sent: Result<(), String>) -> Result<(), ErrorView> {
    match sent {
        Ok(_) => Ok(()),
        Err(cause) => Err(publish_failed(cause@)),
    }
}

/// Takes the client library's answer to one publish operation. A failure is
/// reported with the client library's message as its label.
pub fn publish_report(sent: Result<(), String>) -> (report: Result<(), BridgeError>)
    ensures
        crate::fanout::report_view(report) == publish_report_view(sent),
{
    match sent {
        Ok(_) => Ok(()),
        Err(cause) => Err(
            BridgeError::with_label(
                ErrorKind::Transport,
                String::from_str("Failed to publish to NATS subject"),
                cause,
            ),
        ),
    }
}

} // verus!
