use crate::encoding::{encode_outcome, normalized_keys, Encoding};
use crate::errors::Error;
use crate::machine::{current_message_of, desired_positions, step, Clacks, ClacksUpdateResult};
use crate::message::{
    CurrentMessage, CurrentMessageView, EncodedMessage, Message, PartView, MAX_MESSAGE_LEN_BYTES,
};
use crate::queue::{after_add, messages_view, Queue};
use crate::shutters::ShutterPositions;
use vstd::prelude::*;

verus! {

/// A request to put a message in the buffer.
#[derive(Debug)]
pub struct AddMessageToQueue {
    message: Message,
}

impl AddMessageToQueue {
    pub fn new(message: Message) -> (r: AddMessageToQueue)
        ensures
            r.message_view() == message@,
    {
        AddMessageToQueue { message }
    }

    pub closed spec fn message_view(self) -> Seq<char> {
        self.message@
    }

    pub fn message(&self) -> (r: &Message)
        ensures
            r@ == self.message_view(),
    {
        &self.message
    }
}

/// What observers are told: the message being shown and the buffer's
/// contents.
#[derive(Debug)]
pub struct State {
    current_message: Option<CurrentMessage>,
    queue: Vec<EncodedMessage>,
}

pub open spec fn current_view(m: Option<CurrentMessage>) -> Option<CurrentMessageView> {
    match m {
        Some(m) => Some(m@),
        None => None,
    }
}

impl State {
    pub fn new(current_message: Option<CurrentMessage>, queue: Vec<EncodedMessage>) -> (r: State)
        ensures
            r.current_message_view() == current_view(current_message),
            r.queue_view() == messages_view(queue@),
    {
        State { current_message, queue }
    }

    pub closed spec fn current_message_view(self) -> Option<CurrentMessageView> {
        current_view(self.current_message)
    }

    pub closed spec fn queue_view(self) -> Seq<Seq<PartView>> {
        messages_view(self.queue@)
    }

    pub fn current_message(&self) -> (r: Option<&CurrentMessage>)
        ensures
            match r {
                Some(m) => self.current_message_view() == Some(m@),
                None => self.current_message_view() is None,
            },
    {
        match &self.current_message {
            Some(m) => Some(m),
            None => None,
        }
    }

    pub fn queue(&self) -> (r: &Vec<EncodedMessage>)
        ensures
            messages_view(r@) == self.queue_view(),
    {
        &self.queue
    }
}

/// What clients need to check their input: the characters that can be
/// encoded and the longest message.
#[derive(Debug)]
pub struct Config {
    supported_characters: Vec<String>,
    max_message_len_in_bytes: usize,
}

impl Config {
    #[verifier::type_invariant]
    closed spec fn well_formed(self) -> bool {
        self.max_message_len_in_bytes == MAX_MESSAGE_LEN_BYTES
    }

    pub closed spec fn supported_characters_view(self) -> Seq<Seq<char>> {
        self.supported_characters@.map_values(|s: String| s@)
    }

    pub fn supported_characters(&self) -> (r: &[String])
        ensures
            r@.map_values(|s: String| s@) == self.supported_characters_view(),
    {
        self.supported_characters.as_slice()
    }

    pub fn max_message_len_in_bytes(&self) -> (r: usize)
        ensures
            r == MAX_MESSAGE_LEN_BYTES,
    {
        proof {
            use_type_invariant(self);
        }
        self.max_message_len_in_bytes
    }
}

/// Whether a handled request succeeded.
#[derive(Debug, Clone, Copy, PartialEq, Eq, Structural)]
pub enum ApplicationHandlerCallResult {
    Succeeded,
    Failed,
}

/// Encodes the requested message and adds it to the buffer.
pub fn handle_add_message_to_queue(
    encoding: &Encoding,
    queue: &mut Queue,
    add_message_to_queue: AddMessageToQueue,
) -> (r: Result<(), Error>)
    ensures
        final(queue).capacity() == old(queue).capacity(),
        exists|encoded: Result<Seq<PartView>, Error>|
            {
                &&& #[trigger] encode_outcome(
                    encoding@,
                    add_message_to_queue.message_view(),
                    normalized_keys(add_message_to_queue.message_view()),
                    encoded,
                )
                &&& match encoded {
                    Err(e) => r == Err::<(), Error>(e) && final(queue)@ == old(queue)@,
                    Ok(parts) => match after_add(old(queue)@, old(queue).capacity(), parts) {
                        None => r == Err::<(), Error>(Error::QueueIsFull) && final(queue)@ == old(
                            queue,
                        )@,
                        Some(q) => r is Ok && final(queue)@ == q,
                    },
                }
            },
{
    let encoded = encoding.encode(add_message_to_queue.message());
    match encoded {
        Ok(m) => {
            let ghost parts = m@;
            let r = queue.add_message(m);
            assert(encode_outcome(
                encoding@,
                add_message_to_queue.message_view(),
                normalized_keys(add_message_to_queue.message_view()),
                Ok::<Seq<PartView>, Error>(parts),
            ));
            r
        },
        Err(e) => {
            assert(encode_outcome(
                encoding@,
                add_message_to_queue.message_view(),
                normalized_keys(add_message_to_queue.message_view()),
                Err::<Seq<PartView>, Error>(e),
            ));
            Err(e)
        },
    }
}

/// Advances the display by one tick; when its state changed, returns the
/// snapshot the shutters must now show.
pub fn handle_update_clacks(clacks: &mut Clacks, queue: &mut Queue) -> (r: Option<
    ShutterPositions,
>)
    ensures
        final(clacks)@.timing == old(clacks)@.timing,
        final(clacks)@.pool == old(clacks)@.pool,
        final(queue).capacity() == old(queue).capacity(),
        exists|now: int, filler: Option<Seq<PartView>>|
            {
                &&& (filler is None <==> old(clacks)@.pool.len() == 0)
                &&& (filler matches Some(f) ==> old(clacks)@.pool.contains(f))
                &&& #[trigger] step(old(clacks)@.state, old(clacks)@.timing, old(queue)@, filler, now)
                    == (final(clacks)@.state, final(queue)@, r is Some)
            },
        r matches Some(p) ==> p == desired_positions(final(clacks)@.state),
{
    match clacks.update(queue) {
        ClacksUpdateResult::StateChanged => Some(clacks.get_desired_shutter_positions()),
        ClacksUpdateResult::StateNotChanged => None,
    }
}

/// The message being shown and a copy of the buffer.
pub fn get_state(clacks: &Clacks, queue: &Queue) -> (r: State)
    ensures
        r.current_message_view() == current_message_of(clacks@.state),
        r.queue_view() == queue@,
{
    let current_message = clacks.current_message();
    let messages = match queue.get_messages() {
        Ok(v) => v,
        Err(_) => Vec::new(),
    };
    State::new(current_message, messages)
}

/// The characters the encoding supports and the longest message.
pub fn get_config(encoding: &Encoding) -> (r: Config)
    ensures
        r.supported_characters_view() == encoding@.characters.map_values(|e: (Seq<char>, ShutterPositions)| e.0),
{
    let supported_characters = encoding.supported_characters();
    let r = Config { supported_characters, max_message_len_in_bytes: MAX_MESSAGE_LEN_BYTES };
    assert(r.supported_characters_view() =~= encoding@.characters.map_values(
        |e: (Seq<char>, ShutterPositions)| e.0,
    ));
    r
}

} // verus!
