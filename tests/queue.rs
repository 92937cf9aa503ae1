use clacks::encoding::Encoding;
use clacks::errors::Error;
use clacks::message::{EncodedMessage, Message, MessageComponent};
use clacks::queue::{MessagesToInject, Queue};

fn encoded(text: &str) -> EncodedMessage {
    Encoding::default().encode(&Message::new(text).unwrap()).unwrap()
}

fn first_symbol(m: &EncodedMessage) -> String {
    match m.parts()[0].element() {
        MessageComponent::Character(s) => s.clone(),
        MessageComponent::End => "<end>".to_string(),
    }
}

#[test]
fn zero_capacity_refused() {
    assert_eq!(Queue::new(0).unwrap_err(), Error::ZeroQueueCapacity);
    assert_eq!(Queue::new(3).unwrap().max_messages(), 3);
}

#[test]
fn full_queue_refuses_until_pop() {
    let mut q = Queue::new(3).unwrap();
    for text in ["A", "B", "C"] {
        assert!(q.add_message(encoded(text)).is_ok());
    }
    assert_eq!(q.add_message(encoded("D")).unwrap_err(), Error::QueueIsFull);
    assert_eq!(q.get_messages().unwrap().len(), 3);
    assert!(q.pop_message().is_some());
    assert!(q.add_message(encoded("E")).is_ok());
    assert_eq!(q.add_message(encoded("F")).unwrap_err(), Error::QueueIsFull);
}

#[test]
fn pop_takes_most_recent() {
    let mut q = Queue::new(5).unwrap();
    q.add_message(encoded("A")).unwrap();
    q.add_message(encoded("B")).unwrap();
    let messages = q.get_messages().unwrap();
    assert_eq!(first_symbol(&messages[0]), "A");
    assert_eq!(first_symbol(&messages[1]), "B");
    assert_eq!(first_symbol(&q.pop_message().unwrap()), "B");
    assert_eq!(first_symbol(&q.pop_message().unwrap()), "A");
    assert!(q.pop_message().is_none());
    assert!(q.get_messages().unwrap().is_empty());
}

#[test]
fn injection_pool_draws() {
    let empty = MessagesToInject::new(vec![]);
    assert!(empty.get().is_none());
    let pool = MessagesToInject::new(vec![encoded("X"), encoded("Y")]);
    for _ in 0..20 {
        let m = pool.get().unwrap();
        let s = first_symbol(m);
        assert!(s == "X" || s == "Y");
    }
}
