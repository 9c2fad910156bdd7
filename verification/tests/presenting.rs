use nu_plugin_nuts::bridge::Delivery;
use nu_plugin_nuts::error::BridgeError;
use nu_plugin_nuts::present::{
    present_delivery, present_message, present_watch, render_payload, Message, Operation, Rendered,
    SaveOrder, Shown, WatchEntry,
};

fn message(payload: &[u8]) -> Message {
    Message { subject: String::from("s"), payload: payload.to_vec(), headers: None }
}

#[test]
fn a_payload_is_shown_as_text_by_default() {
    assert_eq!(render_payload(&b"hello".to_vec(), false), Rendered::Text(String::from("hello")));
    assert_eq!(
        render_payload(&"grüß ✓".as_bytes().to_vec(), false),
        Rendered::Text(String::from("grüß ✓"))
    );
    assert_eq!(render_payload(&vec![], false), Rendered::Text(String::new()));
}

#[test]
fn bytes_that_are_no_text_are_shown_with_replacements() {
    assert_eq!(
        render_payload(&vec![b'a', 0xff, b'b'], false),
        Rendered::Text(String::from("a\u{fffd}b"))
    );
    assert_eq!(
        render_payload(&vec![0xf0, 0x9f, 0x92], false),
        Rendered::Text(String::from("\u{fffd}"))
    );
}

#[test]
fn a_payload_is_shown_as_bytes_on_request() {
    assert_eq!(render_payload(&vec![b'a', 0xff], true), Rendered::Binary(vec![b'a', 0xff]));
    assert_eq!(render_payload(&b"text".to_vec(), true), Rendered::Binary(b"text".to_vec()));
}

#[test]
fn a_message_is_saved_where_a_path_is_given() {
    let shown = present_message(&message(b"\xffraw"), false, &Some(String::from("/tmp/out")));
    assert_eq!(
        shown,
        Shown {
            save: Some(SaveOrder { path: String::from("/tmp/out"), bytes: b"\xffraw".to_vec() }),
            value: Rendered::Text(String::from("\u{fffd}raw")),
        }
    );
    let shown = present_message(&message(b"abc"), true, &None);
    assert_eq!(shown, Shown { save: None, value: Rendered::Binary(b"abc".to_vec()) });
}

#[test]
fn a_failure_in_a_subscription_is_shown_and_not_saved() {
    let failure = BridgeError::transport(String::from("slow consumer"));
    let shown = present_delivery(
        Delivery::Failure(failure.duplicate()),
        false,
        &Some(String::from("/tmp/out")),
    );
    assert_eq!(shown, Shown { save: None, value: Rendered::Failure(failure) });
    let shown = present_delivery(Delivery::Item(message(b"m")), false, &Some(String::from("p")));
    assert_eq!(
        shown,
        Shown {
            save: Some(SaveOrder { path: String::from("p"), bytes: b"m".to_vec() }),
            value: Rendered::Text(String::from("m")),
        }
    );
}

#[test]
fn a_watch_entry_is_shown_as_key_and_text() {
    let entry = WatchEntry {
        key: String::from("colour"),
        value: b"blue".to_vec(),
        operation: Operation::Put,
        revision: 4,
    };
    assert_eq!(
        present_watch(Delivery::Item(entry)),
        Rendered::Pair { key: String::from("colour"), text: String::from("blue") }
    );
    let entry = WatchEntry {
        key: String::from("gone"),
        value: vec![0x80],
        operation: Operation::Delete,
        revision: 5,
    };
    assert_eq!(
        present_watch(Delivery::Item(entry)),
        Rendered::Pair { key: String::from("gone"), text: String::from("\u{fffd}") }
    );
    let failure = BridgeError::transport(String::from("watch closed"));
    assert_eq!(
        present_watch(Delivery::Failure(failure.duplicate())),
        Rendered::Failure(failure)
    );
}
