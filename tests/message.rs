use clacks::errors::Error;
use clacks::message::{EncodedMessage, EncodedMessagePart, Message, MessageComponent};
use clacks::shutters::{ShutterLocation, ShutterPositions};

fn part(symbol: Option<&str>, location: ShutterLocation) -> EncodedMessagePart {
    let element = match symbol {
        Some(s) => MessageComponent::Character(s.to_string()),
        None => MessageComponent::End,
    };
    EncodedMessagePart::new(element, ShutterPositions::new(&[location]).unwrap())
}

#[test]
fn message_length_limits() {
    assert_eq!(Message::new("").unwrap_err(), Error::EmptyMessage);
    assert!(Message::new("A").is_ok());
    assert!(Message::new("ABCDEFGHIJKLMNOPQRST").is_ok());
    assert_eq!(
        Message::new("ABCDEFGHIJKLMNOPQRSTU").unwrap_err(),
        Error::MessageTooLong
    );
    assert_eq!(Message::new("HELLO").unwrap().text(), "HELLO");
}

#[test]
fn message_length_counts_bytes() {
    // ten two-byte characters fit, eleven do not
    assert!(Message::new("éééééééééé").is_ok());
    assert_eq!(
        Message::new("ééééééééééé").unwrap_err(),
        Error::MessageTooLong
    );
}

#[test]
fn encoded_message_needs_end_last() {
    let valid = EncodedMessage::new(vec![
        part(Some("A"), ShutterLocation::TopLeft),
        part(None, ShutterLocation::TopRight),
    ])
    .unwrap();
    assert_eq!(valid.parts().len(), 2);
    let ends = valid
        .parts()
        .iter()
        .filter(|p| matches!(p.element(), MessageComponent::End))
        .count();
    assert_eq!(ends, 1);
    assert!(matches!(valid.parts()[1].element(), MessageComponent::End));

    assert_eq!(
        EncodedMessage::new(vec![]).unwrap_err(),
        Error::MalformedEncodedMessage
    );
    assert_eq!(
        EncodedMessage::new(vec![part(Some("A"), ShutterLocation::TopLeft)]).unwrap_err(),
        Error::MalformedEncodedMessage
    );
    assert_eq!(
        EncodedMessage::new(vec![
            part(None, ShutterLocation::TopRight),
            part(Some("A"), ShutterLocation::TopLeft),
        ])
        .unwrap_err(),
        Error::MalformedEncodedMessage
    );
    assert_eq!(
        EncodedMessage::new(vec![
            part(None, ShutterLocation::TopRight),
            part(None, ShutterLocation::TopRight),
        ])
        .unwrap_err(),
        Error::MalformedEncodedMessage
    );
}

#[test]
fn end_only_message_is_valid() {
    let m = EncodedMessage::new(vec![part(None, ShutterLocation::TopRight)]).unwrap();
    assert_eq!(m.parts().len(), 1);
}
