use crate::errors::Error;
use crate::message::{EncodedMessage, PartView};
use vstd::prelude::*;

verus! {

/// The views of a list of encoded messages.
pub open spec fn messages_view(messages: Seq<EncodedMessage>) -> Seq<Seq<PartView>> {
    messages.map_values(|m: EncodedMessage| m@)
}

/// The buffer after `m` is added to it, or `None` when it is already full.
pub open spec fn after_add(messages: Seq<Seq<PartView>>, capacity: nat, m: Seq<PartView>) -> Option<
    Seq<Seq<PartView>>,
> {
    if messages.len() >= capacity {
        None
    } else {
        Some(messages.push(m))
    }
}

/// The buffer after each of `ms` is added in turn, or `None` if one of the
/// additions fails.
pub open spec fn after_adding_all(
    messages: Seq<Seq<PartView>>,
    capacity: nat,
    ms: Seq<Seq<PartView>>,
) -> Option<Seq<Seq<PartView>>>
    decreases ms.len(),
{
    if ms.len() == 0 {
        Some(messages)
    } else {
        match after_adding_all(messages, capacity, ms.drop_last()) {
            Some(q) => after_add(q, capacity, ms.last()),
            None => None,
        }
    }
}

/// Into an empty buffer, `capacity` messages are added one after another,
/// and the next addition is refused; once the message on top is taken out,
/// exactly one more can be added.
pub proof fn lemma_capacity_bound(
    capacity: nat,
    ms: Seq<Seq<PartView>>,
    extra: Seq<PartView>,
    another: Seq<PartView>,
)
    requires
        capacity > 0,
        ms.len() == capacity,
    ensures
        after_adding_all(Seq::empty(), capacity, ms) == Some(ms),
        after_add(ms, capacity, extra) is None,
        after_add(ms.drop_last(), capacity, extra) == Some(ms.drop_last().push(extra)),
        after_add(ms.drop_last().push(extra), capacity, another) is None,
{
    lemma_adding_below_capacity(capacity, ms);
}

proof fn lemma_adding_below_capacity(capacity: nat, ms: Seq<Seq<PartView>>)
    requires
        ms.len() <= capacity,
    ensures
        after_adding_all(Seq::empty(), capacity, ms) == Some(ms),
    decreases ms.len(),
{
    if ms.len() > 0 {
        lemma_adding_below_capacity(capacity, ms.drop_last());
        assert(ms.drop_last().push(ms.last()) =~= ms);
    }
}

/// A bounded buffer of encoded messages waiting to be shown. The message
/// added last is the one taken next.
#[derive(Debug)]
pub struct Queue {
    messages: Vec<EncodedMessage>,
    max_messages: usize,
}

impl View for Queue {
    type V = Seq<Seq<PartView>>;

    closed spec fn view(&self) -> Seq<Seq<PartView>> {
        messages_view(self.messages@)
    }
}

impl Queue {
    /// How many messages the buffer may hold.
    pub closed spec fn capacity(self) -> nat {
        self.max_messages as nat
    }

    pub fn new(max_messages: usize) -> (r: Result<Queue, Error>)
        ensures
            match r {
                Ok(q) => max_messages > 0 && q@ == Seq::<Seq<PartView>>::empty() && q.capacity()
                    == max_messages,
                Err(e) => max_messages == 0 && e == Error::ZeroQueueCapacity,
            },
    {
        if max_messages == 0 {
            return Err(Error::ZeroQueueCapacity);
        }
        let q = Queue { messages: Vec::new(), max_messages };
        assert(q@ =~= Seq::<Seq<PartView>>::empty());
        Ok(q)
    }

    pub fn max_messages(&self) -> (r: usize)
        ensures
            r == self.capacity(),
    {
        self.max_messages
    }

    /// Appends a message, unless the buffer is full.
    pub fn add_message(&mut self, message: EncodedMessage) -> (r: Result<(), Error>)
        ensures
            final(self).capacity() == old(self).capacity(),
            match after_add(old(self)@, old(self).capacity(), message@) {
                None => r == Err::<(), Error>(Error::QueueIsFull) && final(self)@ == old(self)@,
                Some(q) => r is Ok && final(self)@ == q,
            },
    {
        if self.messages.len() >= self.max_messages {
            return Err(Error::QueueIsFull);
        }
        let ghost before = self.messages@;
        self.messages.push(message);
        assert(messages_view(self.messages@) =~= messages_view(before).push(message@));
        Ok(())
    }

    /// Takes the message added last, if any.
    pub fn pop_message(&mut self) -> (r: Option<EncodedMessage>)
        ensures
            final(self).capacity() == old(self).capacity(),
            if old(self)@.len() == 0 {
                r is None && final(self)@ == old(self)@
            } else {
                r matches Some(m) && m@ == old(self)@.last() && final(self)@ == old(
                    self,
                )@.drop_last()
            },
    {
        let ghost before = self.messages@;
        let r = self.messages.pop();
        proof {
            if before.len() > 0 {
                assert(messages_view(self.messages@) =~= messages_view(before).drop_last());
            }
        }
        r
    }

    /// A copy of every message in the buffer, oldest first.
    pub fn get_messages(&self) -> (r: Result<Vec<EncodedMessage>, Error>)
        ensures
            r matches Ok(v) && messages_view(v@) == self@,
    {
        let v = self.messages.clone();
        assert(messages_view(v@) =~= messages_view(self.messages@)) by {
            assert forall|i: int| 0 <= i < v@.len() implies v@[i]@ == self.messages@[i]@ by {
                assert(cloned::<EncodedMessage>(self.messages@[i], v@[i]));
            }
        }
        Ok(v)
    }
}

/// Relies on rand's `IndexedRandom::choose` with the thread-local generator:
/// nothing for an empty list, otherwise one of its items.
#[verifier::external_body]
fn choose_message(messages: &Vec<EncodedMessage>) -> (r: Option<&EncodedMessage>)
    ensures
        r is None <==> messages@.len() == 0,
        r matches Some(m) ==> messages@.contains(*m),
{
    rand::seq::IndexedRandom::choose(messages.as_slice(), &mut rand::rng())
}

/// A fixed pool of encoded filler messages, shown when the buffer has been
/// idle for too long. Messages are drawn at random and never removed.
#[derive(Debug)]
pub struct MessagesToInject {
    messages: Vec<EncodedMessage>,
}

impl View for MessagesToInject {
    type V = Seq<Seq<PartView>>;

    closed spec fn view(&self) -> Seq<Seq<PartView>> {
        messages_view(self.messages@)
    }
}

impl MessagesToInject {
    pub fn new(messages: Vec<EncodedMessage>) -> (r: MessagesToInject)
        ensures
            r@ == messages_view(messages@),
    {
        MessagesToInject { messages }
    }

    /// A message drawn at random from the pool; nothing if the pool is empty.
    pub fn get(&self) -> (r: Option<&EncodedMessage>)
        ensures
            r is None <==> self@.len() == 0,
            r matches Some(m) ==> self@.contains(m@),
    {
        let r = choose_message(&self.messages);
        proof {
            if let Some(m) = r {
                let i = choose|i: int| 0 <= i < self.messages@.len() && self.messages@[i] == *m;
                assert(self@[i] == m@);
            }
        }
        r
    }
}

} // verus!
