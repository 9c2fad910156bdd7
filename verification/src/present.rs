//! Turning what the broker delivered into what the host is shown.
//!
//! A payload is shown as bytes where the caller asked for bytes, and as text
//! otherwise. A watch entry is shown as its key with its value as text. A
//! failure that travelled through a stream is shown as a failure.

use vstd::prelude::*;
use crate::bridge::{Delivery, DeliveryView};
use crate::error::{BridgeError, ErrorView};
use crate::outside::{decode_lossy, lossy_text};
use crate::values::copy_bytes;

verus! {

/// A message received on a subject.
#[derive(Debug, PartialEq, Eq)]
pub struct Message {
    pub subject: String,
    pub payload: Vec<u8>,
    pub headers: Option<async_nats::HeaderMap>,
}

/// What a watch entry reports of its key.
#[derive(Debug, Clone, Copy, PartialEq, Eq, Structural)]
pub enum Operation {
    Put,
    Delete,
    Purge,
}

/// One change of one key in a bucket.
#[derive(Debug, Clone, PartialEq, Eq)]
pub struct WatchEntry {
    pub key: String,
    pub value: Vec<u8>,
    pub operation: Operation,
    pub revision: u64,
}

/// A value as the host is shown it.
#[derive(Debug, PartialEq, Eq)]
pub enum Rendered {
    /// Bytes, undecoded.
    Binary(Vec<u8>),
    /// Text.
    Text(String),
    /// A record of one field: a key and its value as text.
    Pair { key: String, text: String },
    /// A failure, as a value of the sequence.
    Failure(BridgeError),
}

/// The mathematical content of a [`Rendered`].
pub enum RenderedView {
    Binary(Seq<u8>),
    Text(Seq<char>),
    Pair { key: Seq<char>, text: Seq<char> },
    Failure(ErrorView),
}

impl View for Rendered {
    type V = RenderedView;

    open spec fn view(&self) -> RenderedView {
        match *self {
            Rendered::Binary(b) => RenderedView::Binary(b@),
            Rendered::Text(s) => RenderedView::Text(s@),
            Rendered::Pair { key, text } => RenderedView::Pair { key: key@, text: text@ },
            Rendered::Failure(e) => RenderedView::Failure(e@),
        }
    }
}

/// An order to write bytes to a file.
#[derive(Debug, PartialEq, Eq)]
pub struct SaveOrder {
    pub path: String,
    pub bytes: Vec<u8>,
}

/// What is done with one delivery of a subscription: what to save, if
/// anything, and what to show.
#[derive(Debug, PartialEq, Eq)]
pub struct Shown {
    pub save: Option<SaveOrder>,
    pub value: Rendered,
}

/// A payload as it is shown: the bytes themselves, or the text they decode to.
pub open spec fn rendered_payload(payload: Seq<u8>, binary: bool) -> RenderedView {
    if binary {
        RenderedView::Binary(payload)
    } else {
        RenderedView::Text(lossy_text(payload))
    }
}

/// A watch entry as it is shown: its key, and its value as text.
pub open spec fn rendered_entry(entry: WatchEntry) -> RenderedView {
    RenderedView::Pair { key: entry.key@, text: lossy_text(entry.value@) }
}

/// What one delivery of a watch is shown as.
pub open spec fn rendered_watch(d: DeliveryView<WatchEntry>) -> RenderedView {
    match d {
        DeliveryView::Item(e) => rendered_entry(e),
        DeliveryView::Failure(e) => RenderedView::Failure(e),
    }
}

/// Renders a payload.
pub fn render_payload(payload: &Vec<u8>, binary: bool) -> (shown: Rendered)
    ensures
        shown@ == rendered_payload(payload@, binary),
{
    if binary {
        Rendered::Binary(copy_bytes(payload))
    } else {
        Rendered::Text(decode_lossy(payload))
    }
}

/// Decides what is done with a message of a subscription.
///
/// With a path to save to, the payload is to be written there, undecoded,
/// whatever is shown.
pub fn present_message(message: &Message, binary: bool, save_to: &Option<String>) -> (shown: Shown)
    ensures
        shown.value@ == rendered_payload(message.payload@, binary),
        shown.save is Some <==> save_to is Some,
        shown.save matches Some(order) ==> order.path@ == save_to->0@ && order.bytes@
            == message.payload@,
{
    let save = match save_to {
        Some(path) => Some(SaveOrder { path: path.clone(), bytes: copy_bytes(&message.payload) }),
        None => None,
    };
    Shown { save, value: render_payload(&message.payload, binary) }
}

/// What one delivery of a subscription is shown as.
pub open spec fn rendered_delivery(d: DeliveryView<Message>, binary: bool) -> RenderedView {
    match d {
        DeliveryView::Item(m) => rendered_payload(m.payload@, binary),
        DeliveryView::Failure(e) => RenderedView::Failure(e),
    }
}

/// Decides what is done with one delivery of a subscription: a message is
/// presented, and a failure is shown as the failure it is, with nothing saved.
pub fn present_delivery(d: Delivery<Message>, binary: bool, save_to: &Option<String>) -> (shown:
    Shown)
    ensures
        shown.value@ == rendered_delivery(d@, binary),
        shown.save is Some <==> d is Item && save_to is Some,
        shown.save matches Some(order) ==> order.path@ == save_to->0@ && order.bytes@
            == d->Item_0.payload@,
{
    match d {
        Delivery::Item(m) => present_message(&m, binary, save_to),
        Delivery::Failure(e) => Shown { save: None, value: Rendered::Failure(e) },
    }
}

/// Renders one delivery of a watch: an entry as its key and text, a failure
/// as the failure it is.
pub fn present_watch(d: Delivery<WatchEntry>) -> (shown: Rendered)
    ensures
        shown@ == rendered_watch(d@),
{
    match d {
        Delivery::Item(e) => {
            let text = decode_lossy(&e.value);
            Rendered::Pair { key: e.key, text }
        },
        Delivery::Failure(e) => Rendered::Failure(e),
    }
}

} // verus!
