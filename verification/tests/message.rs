use debug_callback::error::DebugCallbackCreationError;
use debug_callback::flags::{MessageSeverity, MessageType};
use debug_callback::message::Message;
use debug_callback::trampoline::{deliver, status_after, Delivery, VK_FALSE};
use std::cell::RefCell;

type Seen = (MessageSeverity, MessageType, String, String);

fn record(seen: &RefCell<Vec<Seen>>, message: &Message) {
    seen.borrow_mut().push((
        message.severity,
        message.ty,
        message.layer_prefix.to_string(),
        message.description.to_string(),
    ));
}

#[test]
fn message_from_native_decodes_flags_and_text() {
    let message = Message::from_native(0x0100, 0x1, b"Loader", b"something happened");
    let message = match message {
        Some(message) => message,
        None => panic!("well-formed text was refused"),
    };
    assert_eq!(
        message.severity,
        MessageSeverity { error: false, warning: true, information: false, verbose: false }
    );
    assert_eq!(
        message.ty,
        MessageType { general: true, validation: false, performance: false }
    );
    assert_eq!(message.layer_prefix, "Loader");
    assert_eq!(message.description, "something happened");
}

#[test]
fn message_text_may_be_empty() {
    let message = Message::from_native(0, 0, b"", b"");
    let message = match message {
        Some(message) => message,
        None => panic!("empty text was refused"),
    };
    assert_eq!(message.severity, MessageSeverity::none());
    assert_eq!(message.ty, MessageType::none());
    assert_eq!(message.layer_prefix, "");
    assert_eq!(message.description, "");
}

#[test]
fn message_text_beyond_ascii_is_kept() {
    let text = "Größe überschritten – 図形";
    let message = Message::from_native(0x1000, 0x2, "Schicht".as_bytes(), text.as_bytes());
    let message = match message {
        Some(message) => message,
        None => panic!("well-formed text was refused"),
    };
    assert_eq!(message.severity, MessageSeverity::errors());
    assert_eq!(
        message.ty,
        MessageType { general: false, validation: true, performance: false }
    );
    assert_eq!(message.layer_prefix, "Schicht");
    assert_eq!(message.description, text);
    assert_eq!(message.description.chars().count(), 24);
}

#[test]
fn message_from_damaged_text_is_refused() {
    // A lone continuation byte, a truncated sequence, an overlong encoding,
    // an encoded surrogate: none is UTF-8.
    let damaged: [&[u8]; 4] =
        [&[0x80], &[b'a', 0xe2, 0x82], &[0xc0, 0xaf], &[0xed, 0xa0, 0x80]];
    for bytes in damaged {
        assert!(Message::from_native(0x1000, 0x1, bytes, b"fine").is_none());
        assert!(Message::from_native(0x1000, 0x1, b"fine", bytes).is_none());
        assert!(Message::from_native(0x1000, 0x1, bytes, bytes).is_none());
    }
}

#[test]
fn warning_of_general_type_is_delivered_once() {
    let seen: RefCell<Vec<Seen>> = RefCell::new(Vec::new());
    let callback = |message: &Message| record(&seen, message);
    let delivery = deliver(&callback, 0x0000_0100, 0x0000_0001, b"layer", b"watch out");
    assert_eq!(delivery, Delivery::Delivered);
    let seen = seen.into_inner();
    assert_eq!(seen.len(), 1);
    assert_eq!(
        seen[0].0,
        MessageSeverity { error: false, warning: true, information: false, verbose: false }
    );
    assert_eq!(
        seen[0].1,
        MessageType { general: true, validation: false, performance: false }
    );
    assert_eq!(seen[0].2, "layer");
    assert_eq!(seen[0].3, "watch out");
}

#[test]
fn every_invocation_delivers_its_own_message() {
    let seen: RefCell<Vec<Seen>> = RefCell::new(Vec::new());
    let callback = |message: &Message| record(&seen, message);
    assert_eq!(deliver(&callback, 0x1000, 0x2, b"a", b"first"), Delivery::Delivered);
    assert_eq!(deliver(&callback, 0x0011, 0x4, b"b", b"second"), Delivery::Delivered);
    let seen = seen.into_inner();
    assert_eq!(seen.len(), 2);
    assert_eq!(seen[0].0, MessageSeverity::errors());
    assert_eq!(seen[0].3, "first");
    assert_eq!(
        seen[1].0,
        MessageSeverity { error: false, warning: false, information: true, verbose: true }
    );
    assert_eq!(
        seen[1].1,
        MessageType { general: false, validation: false, performance: true }
    );
    assert_eq!(seen[1].2, "b");
    assert_eq!(seen[1].3, "second");
}

#[test]
fn damaged_text_is_not_delivered() {
    let seen: RefCell<Vec<Seen>> = RefCell::new(Vec::new());
    let callback = |message: &Message| record(&seen, message);
    assert_eq!(deliver(&callback, 0x1000, 0x1, &[0xff], b"text"), Delivery::Malformed);
    assert_eq!(deliver(&callback, 0x1000, 0x1, b"layer", &[0xc3]), Delivery::Malformed);
    assert!(seen.into_inner().is_empty());
}

#[test]
fn status_is_always_continue() {
    assert_eq!(VK_FALSE, 0);
    assert_eq!(status_after(Some(Delivery::Delivered)), 0);
    assert_eq!(status_after(Some(Delivery::Malformed)), 0);
    assert_eq!(status_after(None), 0);
}

#[test]
fn failed_callback_does_not_change_the_status() {
    // The callback takes note of the message and then fails. Its failure is
    // reported to the trampoline as "no outcome".
    let seen: RefCell<Vec<Seen>> = RefCell::new(Vec::new());
    let failing = |message: &Message| -> Result<(), String> {
        record(&seen, message);
        Err("callback gave up".to_string())
    };
    let outcome = match Message::from_native(0x1000, 0x1, b"layer", b"boom") {
        Some(message) => failing(&message).ok().map(|_| Delivery::Delivered),
        None => Some(Delivery::Malformed),
    };
    assert_eq!(outcome, None);
    assert_eq!(status_after(outcome), VK_FALSE);
    assert_eq!(seen.into_inner().len(), 1);
}

#[test]
fn missing_extension_renders_its_text() {
    let error = DebugCallbackCreationError::MissingExtension;
    assert_eq!(error.to_string(), "the `EXT_debug_report` extension was not enabled");
    assert_eq!(error, DebugCallbackCreationError::MissingExtension);
}
