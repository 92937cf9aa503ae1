use clacks::encoding::Encoding;
use clacks::errors::Error;
use clacks::message::{EncodedMessage, Message, MessageComponent};
use clacks::shutters::{ShutterLocation, ShutterPositions};

fn snapshot(open: &[ShutterLocation]) -> ShutterPositions {
    ShutterPositions::new(open).unwrap()
}

fn symbols(m: &EncodedMessage) -> Vec<String> {
    m.parts()
        .iter()
        .map(|p| match p.element() {
            MessageComponent::Character(s) => s.clone(),
            MessageComponent::End => "<end>".to_string(),
        })
        .collect()
}

#[test]
fn default_encodes_hi() {
    let encoding = Encoding::default();
    let m = encoding.encode(&Message::new("HI").unwrap()).unwrap();
    assert_eq!(symbols(&m), vec!["H", "I", "<end>"]);
    assert_eq!(
        *m.parts()[0].shutter_positions(),
        snapshot(&[
            ShutterLocation::TopLeft,
            ShutterLocation::BottomLeft,
            ShutterLocation::BottomRight
        ])
    );
    assert_eq!(
        *m.parts()[1].shutter_positions(),
        snapshot(&[
            ShutterLocation::TopLeft,
            ShutterLocation::MiddleLeft,
            ShutterLocation::BottomLeft
        ])
    );
    assert_eq!(
        *m.parts()[2].shutter_positions(),
        snapshot(&[
            ShutterLocation::TopLeft,
            ShutterLocation::TopRight,
            ShutterLocation::BottomLeft,
            ShutterLocation::BottomRight
        ])
    );
}

#[test]
fn encoding_is_case_insensitive() {
    let encoding = Encoding::default();
    let lower = encoding.encode(&Message::new("hi").unwrap()).unwrap();
    let upper = encoding.encode(&Message::new("HI").unwrap()).unwrap();
    assert_eq!(symbols(&lower), vec!["H", "I", "<end>"]);
    for (a, b) in lower.parts().iter().zip(upper.parts().iter()) {
        assert_eq!(a.shutter_positions(), b.shutter_positions());
    }
}

#[test]
fn unencodable_character_reported() {
    let encoding = Encoding::default();
    let r = encoding.encode(&Message::new("A!B?").unwrap());
    assert_eq!(r.unwrap_err(), Error::CannotEncodeCharacter('!'));
    let r = encoding.encode(&Message::new("a?").unwrap());
    assert_eq!(r.unwrap_err(), Error::CannotEncodeCharacter('?'));
}

#[test]
fn every_default_character_round_trips() {
    let encoding = Encoding::default();
    let characters = encoding.supported_characters();
    assert_eq!(characters.len(), 37);
    for c in characters {
        let m = encoding.encode(&Message::new(&c).unwrap()).unwrap();
        assert_eq!(m.parts().len(), 2);
        assert_eq!(symbols(&m), vec![c.clone(), "<end>".to_string()]);
        match encoding.check_usage(m.parts()[0].shutter_positions()) {
            Some(MessageComponent::Character(s)) => assert_eq!(s, c),
            _ => panic!("snapshot of {} not found", c),
        }
    }
}

#[test]
fn default_snapshots_are_distinct() {
    let encoding = Encoding::default();
    let characters = encoding.supported_characters();
    let mut snapshots = Vec::new();
    for c in &characters {
        let m = encoding.encode(&Message::new(c).unwrap()).unwrap();
        snapshots.push(*m.parts()[0].shutter_positions());
        if snapshots.len() == 1 {
            snapshots.push(*m.parts()[1].shutter_positions());
        }
    }
    for i in 0..snapshots.len() {
        assert!(!snapshots[i].all_closed());
        for j in 0..i {
            assert_ne!(snapshots[i], snapshots[j]);
        }
    }
}

#[test]
fn reverse_lookup_of_end_and_unknown() {
    let encoding = Encoding::default();
    let end = snapshot(&[
        ShutterLocation::TopLeft,
        ShutterLocation::TopRight,
        ShutterLocation::BottomLeft,
        ShutterLocation::BottomRight,
    ]);
    assert!(matches!(encoding.check_usage(&end), Some(MessageComponent::End)));
    assert!(encoding.check_usage(&ShutterPositions::new_with_all_closed()).is_none());
    assert!(encoding.check_usage(&ShutterPositions::new_with_all_open()).is_none());
}

#[test]
fn new_normalizes_keys() {
    let encoding = Encoding::new(
        vec![
            ("a".to_string(), snapshot(&[ShutterLocation::TopLeft])),
            ("b".to_string(), snapshot(&[ShutterLocation::TopRight])),
        ],
        snapshot(&[ShutterLocation::BottomLeft]),
    )
    .unwrap();
    assert_eq!(encoding.supported_characters(), vec!["A", "B"]);
    let m = encoding.encode(&Message::new("Ba").unwrap()).unwrap();
    assert_eq!(symbols(&m), vec!["B", "A", "<end>"]);
}

#[test]
fn new_refuses_bad_repertoires() {
    let end = snapshot(&[ShutterLocation::BottomLeft]);
    assert_eq!(Encoding::new(vec![], end).unwrap_err(), Error::EmptyEncoding);
    assert_eq!(
        Encoding::new(vec![("A".to_string(), ShutterPositions::new_with_all_closed())], end)
            .unwrap_err(),
        Error::AllClosedCharacter
    );
    assert_eq!(
        Encoding::new(
            vec![
                ("a".to_string(), snapshot(&[ShutterLocation::TopLeft])),
                ("A".to_string(), snapshot(&[ShutterLocation::TopRight])),
            ],
            end
        )
        .unwrap_err(),
        Error::DuplicateCharacter
    );
    assert_eq!(
        Encoding::new(
            vec![
                ("A".to_string(), snapshot(&[ShutterLocation::TopLeft])),
                ("B".to_string(), snapshot(&[ShutterLocation::TopLeft])),
            ],
            end
        )
        .unwrap_err(),
        Error::DuplicateCharacterShutterPositions
    );
    assert_eq!(
        Encoding::new(
            vec![("A".to_string(), snapshot(&[ShutterLocation::TopLeft]))],
            ShutterPositions::new_with_all_closed()
        )
        .unwrap_err(),
        Error::AllClosedMessageEnd
    );
    assert_eq!(
        Encoding::new(
            vec![("A".to_string(), snapshot(&[ShutterLocation::TopLeft]))],
            snapshot(&[ShutterLocation::TopLeft])
        )
        .unwrap_err(),
        Error::DuplicateMessageEndShutterPositions
    );
}

#[test]
fn normalized_keys_taken_as_given() {
    let encoding = Encoding::with_normalized_keys(
        vec![("x".to_string(), snapshot(&[ShutterLocation::TopLeft]))],
        snapshot(&[ShutterLocation::TopRight]),
    )
    .unwrap();
    assert_eq!(encoding.supported_characters(), vec!["x"]);
    let m = encoding
        .encode_characters(&vec!['x'], &vec!["x".to_string()])
        .unwrap();
    assert_eq!(symbols(&m), vec!["x", "<end>"]);
    let r = encoding.encode_characters(&vec!['x', 'y'], &vec!["x".to_string(), "Y".to_string()]);
    assert_eq!(r.unwrap_err(), Error::CannotEncodeCharacter('y'));
}
