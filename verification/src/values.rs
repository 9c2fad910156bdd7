//! The values a command receives from the host, and how they are coerced.
//!
//! The host's values are richer than what the broker needs. A [`Datum`] keeps
//! what the commands read: text, bytes, records, lists, and for everything
//! else the name of its type; and, for failures to point at, where the value
//! came from.

use vstd::prelude::*;
use vstd::string::*;
use vstd::utf8::{decode_utf8, encode_utf8, valid_utf8};
use crate::error::{BridgeError, ErrorKind, ErrorView, Origin};
use crate::outside::decode_strict;

verus! {

/// One value of the host: what it holds, and where it came from.
#[derive(Debug, PartialEq, Eq)]
pub struct Datum {
    pub at: Origin,
    pub content: Content,
}

/// What a value holds.
#[derive(Debug, PartialEq, Eq)]
pub enum Content {
    /// A string.
    Text(String),
    /// A run of bytes.
    Binary(Vec<u8>),
    /// A number, boolean, date or glob, with the text the host writes it as.
    Scalar { kind: String, text: String },
    /// Named fields, in the host's order.
    Record(Vec<(String, Datum)>),
    /// A list of values.
    List(Vec<Datum>),
    /// Any other value, known by the name of its type only.
    Other { kind: String },
}

/// What arrives on a command's input.
#[derive(Debug, PartialEq, Eq)]
pub enum Input {
    /// Nothing was piped in.
    Empty,
    /// One value.
    Value(Datum),
    /// A stream of values.
    Stream(Vec<Datum>),
    /// A raw byte stream, which no command here reads.
    Bytes,
}

/// The name of a value's type, as failures quote it.
pub open spec fn kind_name(d: Datum) -> Seq<char> {
    match d.content {
        Content::Text(_) => "string"@,
        Content::Binary(_) => "binary"@,
        Content::Scalar { kind, .. } => kind@,
        Content::Record(_) => "record"@,
        Content::List(_) => "list"@,
        Content::Other { kind } => kind@,
    }
}

/// The failure for a value that cannot be coerced to `target`. Its label
/// points at the value.
pub open spec fn cannot_convert(d: Datum, target: Seq<char>) -> ErrorView {
    ErrorView {
        kind: ErrorKind::Encoding,
        message: "Can't convert to "@ + target + "."@,
        label: Some("can't convert "@ + kind_name(d) + " to "@ + target),
        at: Some(d.at),
    }
}

/// The bytes a value is sent as: bytes as they are, text as its UTF-8
/// encoding. No other value can be a payload.
pub open spec fn payload_bytes(d: Datum) -> Result<Seq<u8>, ErrorView> {
    match d.content {
        Content::Binary(b) => Ok(b@),
        Content::Text(s) => Ok(encode_utf8(s@)),
        _ => Err(cannot_convert(d, "binary"@)),
    }
}

/// The text a value is written as in a header: text as it is, a scalar as the
/// host writes it, bytes as the text they encode where they are valid UTF-8.
/// No other value can be a header.
pub open spec fn header_text(d: Datum) -> Result<Seq<char>, ErrorView> {
    match d.content {
        Content::Text(s) => Ok(s@),
        Content::Scalar { text, .. } => Ok(text@),
        Content::Binary(b) => if valid_utf8(b@) {
            Ok(decode_utf8(b@))
        } else {
            Err(cannot_convert(d, "string"@))
        },
        _ => Err(cannot_convert(d, "string"@)),
    }
}

/// A copy of a run of bytes.
pub fn copy_bytes(bytes: &Vec<u8>) -> (copy: Vec<u8>)
    ensures
        copy@ == bytes@,
{
    let mut copy: Vec<u8> = Vec::new();
    let mut i: usize = 0;
    while i < bytes.len()
        invariant
            i <= bytes.len(),
            copy@ == bytes@.subrange(0, i as int),
        decreases bytes.len() - i,
    {
        copy.push(bytes[i]);
        assert(bytes@.subrange(0, i as int).push(bytes@[i as int]) =~= bytes@.subrange(
            0,
            i + 1,
        ));
        i = i + 1;
    }
    assert(bytes@.subrange(0, bytes.len() as int) =~= bytes@);
    copy
}

impl Datum {
    /// A value that holds `content` and came from `at`.
    pub fn new(at: Origin, content: Content) -> (d: Datum)
        ensures
            d.at == at,
            d.content == content,
    {
        Datum { at, content }
    }

    /// The name of this value's type.
    pub fn kind_name(&self) -> (name: String)
        ensures
            name@ == kind_name(*self),
    {
        match &self.content {
            Content::Text(_) => String::from_str("string"),
            Content::Binary(_) => String::from_str("binary"),
            Content::Scalar { kind, .. } => kind.clone(),
            Content::Record(_) => String::from_str("record"),
            Content::List(_) => String::from_str("list"),
            Content::Other { kind } => kind.clone(),
        }
    }

    /// The failure for this value where it cannot be coerced to `target`.
    pub fn cannot_convert(&self, target: &str) -> (e: BridgeError)
        ensures
            e@ == cannot_convert(*self, target@),
    {
        let mut message = String::from_str("Can't convert to ");
        message.append(target);
        message.append(".");
        let mut label = String::from_str("can't convert ");
        let name = self.kind_name();
        label.append(name.as_str());
        label.append(" to ");
        label.append(target);
        BridgeError::located(ErrorKind::Encoding, message, label, self.at)
    }

    /// Coerces this value to the bytes it is sent as.
    pub fn to_payload(&self) -> (bytes: Result<Vec<u8>, BridgeError>)
        ensures
            match bytes {
                Ok(b) => payload_bytes(*self) == Ok::<Seq<u8>, ErrorView>(b@),
                Err(e) => payload_bytes(*self) == Err::<Seq<u8>, ErrorView>(e@),
            },
    {
        match &self.content {
            Content::Binary(b) => Ok(copy_bytes(b)),
            Content::Text(s) => Ok(s.as_str().as_bytes_vec()),
            _ => Err(self.cannot_convert("binary")),
        }
    }

    /// Coerces this value to the text it is written as in a header.
    pub fn to_header_text(&self) -> (text: Result<String, BridgeError>)
        ensures
            match text {
                Ok(s) => header_text(*self) == Ok::<Seq<char>, ErrorView>(s@),
                Err(e) => header_text(*self) == Err::<Seq<char>, ErrorView>(e@),
            },
    {
        match &self.content {
            Content::Text(s) => Ok(s.clone()),
            Content::Scalar { text, .. } => Ok(text.clone()),
            Content::Binary(b) => match decode_strict(copy_bytes(b)) {
                Some(s) => Ok(s),
                None => Err(self.cannot_convert("string")),
            },
            _ => Err(self.cannot_convert("string")),
        }
    }
}

} // verus!
