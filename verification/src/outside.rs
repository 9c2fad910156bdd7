//! The calls this library makes into code that is not verified here.
//!
//! Each function below makes one call and has a contract that is believed,
//! not proved. Everything else in the library is proved from these contracts.

use std::str::FromStr;
use vstd::prelude::*;
use vstd::utf8::{decode_utf8, valid_utf8};

verus! {

/// What `String::from_utf8_lossy` makes of bytes that are not valid UTF-8.
pub uninterp spec fn utf8_lossy(bytes: Seq<u8>) -> Seq<char>;

/// The text that a payload is shown as: its decoding where it is valid UTF-8,
/// and the lossy decoding otherwise.
pub open spec fn lossy_text(bytes: Seq<u8>) -> Seq<char> {
    if valid_utf8(bytes) {
        decode_utf8(bytes)
    } else {
        utf8_lossy(bytes)
    }
}

/// Calls `String::from_utf8_lossy`.
///
/// Believed: valid UTF-8 comes back as the text it encodes; for other bytes the
/// result depends on the bytes alone.
#[verifier::external_body]
pub(crate) fn decode_lossy(bytes: &Vec<u8>) -> (text: String)
    ensures
        text@ == lossy_text(bytes@),
        !valid_utf8(bytes@) ==> text@ == utf8_lossy(bytes@),
{
    String::from_utf8_lossy(bytes).into_owned()
}

/// Calls `String::from_utf8`.
///
/// Believed: the call succeeds exactly on valid UTF-8, and then returns the
/// text that the bytes encode.
#[verifier::external_body]
pub(crate) fn decode_strict(bytes: Vec<u8>) -> (text: Option<String>)
    ensures
        text is Some <==> valid_utf8(bytes@),
        text matches Some(s) ==> s@ == decode_utf8(bytes@),
{
    String::from_utf8(bytes).ok()
}

/// A character that `char::is_ascii_graphic` accepts: `!` to `~`.
pub open spec fn is_ascii_graphic(c: char) -> bool {
    0x21 <= c as u32 <= 0x7e
}

/// A header name the broker client accepts: visible ASCII without a colon.
pub open spec fn valid_header_name(name: Seq<char>) -> bool {
    forall|i: int|
        0 <= i < name.len() ==> is_ascii_graphic(#[trigger] name[i]) && name[i] != ':'
}

/// A header value the broker client accepts: no carriage return, no line feed.
pub open spec fn valid_header_value(value: Seq<char>) -> bool {
    forall|i: int| 0 <= i < value.len() ==> #[trigger] value[i] != '\r' && value[i] != '\n'
}

/// Calls `async_nats::HeaderName::from_str` and says whether it succeeded.
///
/// Believed: a name parses exactly when each of its characters is visible
/// ASCII and none is a colon.
#[verifier::external_body]
pub(crate) fn header_name_parses(name: &str) -> (ok: bool)
    ensures
        ok == valid_header_name(name@),
{
    async_nats::HeaderName::from_str(name).is_ok()
}

/// Calls `async_nats::HeaderValue::from_str` and says whether it succeeded.
///
/// Believed: a value parses exactly when it holds neither a carriage return
/// nor a line feed.
#[verifier::external_body]
pub(crate) fn header_value_parses(value: &str) -> (ok: bool)
    ensures
        ok == valid_header_value(value@),
{
    async_nats::HeaderValue::from_str(value).is_ok()
}

/// The broker client's collection of headers.
#[verifier::external_type_specification]
#[verifier::external_body]
pub struct ExHeaderMap(async_nats::HeaderMap);

/// What a collection of headers holds: for each name, its values in order.
pub uninterp spec fn header_entries(headers: async_nats::HeaderMap) -> Map<
    Seq<char>,
    Seq<Seq<char>>,
>;

/// A collection of headers that holds nothing.
pub open spec fn no_headers() -> Map<Seq<char>, Seq<Seq<char>>> {
    Map::empty()
}

/// Calls `async_nats::HeaderMap::new`.
///
/// Believed: the new collection holds nothing.
#[verifier::external_body]
pub(crate) fn empty_headers() -> (fresh: async_nats::HeaderMap)
    ensures
        header_entries(fresh) == no_headers(),
{
    async_nats::HeaderMap::new()
}

/// Calls `async_nats::HeaderMap::insert` with a name and a value given as text.
///
/// Believed: afterwards the name has this one value, whatever it had before,
/// and the other names have what they had. The call panics on a name or a
/// value that does not parse, so both must be valid.
#[verifier::external_body]
pub(crate) fn insert_header(headers: &mut async_nats::HeaderMap, name: &str, value: &str)
    requires
        valid_header_name(name@),
        valid_header_value(value@),
    ensures
        header_entries(*final(headers)) == header_entries(*old(headers)).insert(
            name@,
            seq![value@],
        ),
{
    headers.insert(name, value);
}

/// The message with which the broker client refuses credentials, where it
/// refuses them.
pub uninterp spec fn credentials_refusal(credentials: Seq<char>) -> Option<Seq<char>>;

/// Calls `async_nats::ConnectOptions::credentials` on fresh options and hands
/// back the message of its error, if it fails.
///
/// Believed: whether the credentials are refused, and with what message,
/// depends on their text alone.
#[verifier::external_body]
pub(crate) fn check_credentials(credentials: &str) -> (refusal: Option<String>)
    ensures
        refusal is Some <==> credentials_refusal(credentials@) is Some,
        refusal matches Some(m) ==> credentials_refusal(credentials@) == Some(m@),
{
    async_nats::ConnectOptions::new().credentials(credentials).err().map(|e| e.to_string())
}

} // verus!
