use clacks::encoding::Encoding;
use clacks::machine::{Clacks, ClacksState, ClacksUpdateResult, TimingConfig};
use clacks::message::{EncodedMessage, Message, MessageComponent};
use clacks::queue::{MessagesToInject, Queue};
use clacks::shutters::ShutterPositions;
use clacks::time::{DateTime, Duration};

fn encoded(text: &str) -> EncodedMessage {
    Encoding::default().encode(&Message::new(text).unwrap()).unwrap()
}

fn timing() -> TimingConfig {
    TimingConfig::new(
        Duration::new_from_seconds(1),
        Duration::new_from_seconds(1),
        Duration::new_from_seconds(1),
        Duration::new_from_seconds(3),
    )
}

fn at(seconds: u64) -> DateTime {
    DateTime::new_from_unix_timestamp(1_000 + seconds)
}

fn at_millis(millis: u64) -> DateTime {
    DateTime::new_from_unix_timestamp(1_000).plus(&Duration::new_from_millis(millis))
}

fn current_symbol(clacks: &Clacks) -> Option<String> {
    let m = clacks.current_message()?;
    m.current().map(|p| match p.element() {
        MessageComponent::Character(s) => s.clone(),
        MessageComponent::End => "<end>".to_string(),
    })
}

#[test]
fn shows_hi_step_by_step() {
    let message = encoded("HI");
    let h = *message.parts()[0].shutter_positions();
    let i = *message.parts()[1].shutter_positions();
    let end = *message.parts()[2].shutter_positions();
    let closed = ShutterPositions::new_with_all_closed();

    let mut queue = Queue::new(10).unwrap();
    queue.add_message(message).unwrap();
    let mut clacks = Clacks::new_at(timing(), MessagesToInject::new(vec![]), at(0));
    assert!(matches!(clacks.state(), ClacksState::WaitingForNextMessage(_)));
    assert_eq!(clacks.get_desired_shutter_positions(), closed);

    // Waiting -> ShowingCharacter(H)
    assert_eq!(clacks.update_at(&mut queue, &at(0), None), ClacksUpdateResult::StateChanged);
    assert!(matches!(clacks.state(), ClacksState::ShowingCharacter(_)));
    assert_eq!(current_symbol(&clacks), Some("H".to_string()));
    assert_eq!(clacks.get_desired_shutter_positions(), h);
    assert!(queue.get_messages().unwrap().is_empty());

    // still H before a second has passed
    assert_eq!(
        clacks.update_at(&mut queue, &at_millis(999), None),
        ClacksUpdateResult::StateNotChanged
    );
    assert_eq!(clacks.get_desired_shutter_positions(), h);

    // -> PausingBetweenCharacters
    assert_eq!(clacks.update_at(&mut queue, &at(1), None), ClacksUpdateResult::StateChanged);
    assert!(matches!(clacks.state(), ClacksState::PausingBetweenCharacters(_)));
    let m = clacks.current_message().unwrap();
    assert_eq!(m.before().len(), 1);
    assert!(m.current().is_none());
    assert_eq!(m.after().len(), 2);
    assert_eq!(clacks.get_desired_shutter_positions(), closed);

    // -> ShowingCharacter(I)
    assert_eq!(clacks.update_at(&mut queue, &at(2), None), ClacksUpdateResult::StateChanged);
    assert_eq!(current_symbol(&clacks), Some("I".to_string()));
    assert_eq!(clacks.get_desired_shutter_positions(), i);

    // -> PausingBetweenCharacters
    assert_eq!(clacks.update_at(&mut queue, &at(3), None), ClacksUpdateResult::StateChanged);
    assert!(matches!(clacks.state(), ClacksState::PausingBetweenCharacters(_)));
    assert_eq!(clacks.get_desired_shutter_positions(), closed);

    // -> ShowingCharacter(End)
    assert_eq!(clacks.update_at(&mut queue, &at(4), None), ClacksUpdateResult::StateChanged);
    assert_eq!(current_symbol(&clacks), Some("<end>".to_string()));
    assert_eq!(clacks.get_desired_shutter_positions(), end);
    let m = clacks.current_message().unwrap();
    assert_eq!(m.before().len(), 2);
    assert!(m.after().is_empty());

    // -> PausingBetweenMessages
    assert_eq!(clacks.update_at(&mut queue, &at(5), None), ClacksUpdateResult::StateChanged);
    assert!(matches!(clacks.state(), ClacksState::PausingBetweenMessages(_)));
    assert!(clacks.current_message().is_none());
    assert_eq!(clacks.get_desired_shutter_positions(), closed);

    // -> WaitingForNextMessage
    assert_eq!(clacks.update_at(&mut queue, &at(6), None), ClacksUpdateResult::StateChanged);
    assert!(matches!(clacks.state(), ClacksState::WaitingForNextMessage(_)));
    assert!(clacks.current_message().is_none());
    assert_eq!(clacks.get_desired_shutter_positions(), closed);

    assert_eq!(
        clacks.update_at(&mut queue, &at(100), None),
        ClacksUpdateResult::StateNotChanged
    );
}

#[test]
fn idle_without_pool_never_changes() {
    let mut queue = Queue::new(2).unwrap();
    let mut clacks = Clacks::new_at(timing(), MessagesToInject::new(vec![]), at(0));
    for s in [0, 1, 3, 4, 10, 1000] {
        assert_eq!(
            clacks.update_at(&mut queue, &at(s), None),
            ClacksUpdateResult::StateNotChanged
        );
        assert!(clacks.current_message().is_none());
    }
    let mut clacks = Clacks::new(timing(), MessagesToInject::new(vec![]));
    for _ in 0..5 {
        assert_eq!(clacks.update(&mut queue), ClacksUpdateResult::StateNotChanged);
        assert!(clacks.current_message().is_none());
        assert!(clacks.get_desired_shutter_positions().all_closed());
    }
}

#[test]
fn filler_after_idle_threshold() {
    let mut queue = Queue::new(2).unwrap();
    let mut clacks = Clacks::new_at(timing(), MessagesToInject::new(vec![encoded("OK")]), at(0));
    assert_eq!(
        clacks.update_at(&mut queue, &at(1), Some(encoded("OK"))),
        ClacksUpdateResult::StateNotChanged
    );
    assert_eq!(
        clacks.update_at(&mut queue, &at_millis(2_999), Some(encoded("OK"))),
        ClacksUpdateResult::StateNotChanged
    );
    assert!(clacks.current_message().is_none());
    assert_eq!(
        clacks.update_at(&mut queue, &at(3), Some(encoded("OK"))),
        ClacksUpdateResult::StateChanged
    );
    assert_eq!(current_symbol(&clacks), Some("O".to_string()));
}

#[test]
fn filler_drawn_from_pool_in_real_time() {
    let mut queue = Queue::new(2).unwrap();
    let zero = TimingConfig::new(
        Duration::new_from_millis(0),
        Duration::new_from_millis(0),
        Duration::new_from_millis(0),
        Duration::new_from_millis(0),
    );
    let mut clacks = Clacks::new(zero, MessagesToInject::new(vec![encoded("K")]));
    assert_eq!(clacks.update(&mut queue), ClacksUpdateResult::StateChanged);
    assert_eq!(current_symbol(&clacks), Some("K".to_string()));
}

#[test]
fn queued_message_wins_over_filler() {
    let mut queue = Queue::new(2).unwrap();
    queue.add_message(encoded("Q")).unwrap();
    let mut clacks = Clacks::new_at(timing(), MessagesToInject::new(vec![encoded("F")]), at(0));
    assert_eq!(
        clacks.update_at(&mut queue, &at(10), Some(encoded("F"))),
        ClacksUpdateResult::StateChanged
    );
    assert_eq!(current_symbol(&clacks), Some("Q".to_string()));
}

#[test]
fn timing_accessors() {
    let t = timing();
    assert_eq!(t.show_character_for().as_millis(), 1_000);
    assert_eq!(t.pause_between_characters_for().as_millis(), 1_000);
    assert_eq!(t.pause_between_messages_for().as_millis(), 1_000);
    assert_eq!(
        t.inject_message_if_no_next_message_after_pausing_between_messages_for()
            .as_millis(),
        3_000
    );
}
