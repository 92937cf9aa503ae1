use crate::errors::Error;
use crate::shutters::ShutterPositions;
use vstd::prelude::*;

verus! {

/// The longest message, in bytes of UTF-8.
pub const MAX_MESSAGE_LEN_BYTES: usize = 20;

/// Validated input text: at least one and at most `MAX_MESSAGE_LEN_BYTES` bytes.
#[derive(Debug)]
pub struct Message {
    text: String,
}

impl View for Message {
    type V = Seq<char>;

    closed spec fn view(&self) -> Seq<char> {
        self.text@
    }
}

impl Message {
    pub fn new(text: &str) -> (r: Result<Message, Error>)
        ensures
            match r {
                Ok(m) => m@ == text@ && text@.len() > 0 && text.len() <= MAX_MESSAGE_LEN_BYTES,
                Err(e) => if text@.len() == 0 {
                    e == Error::EmptyMessage
                } else {
                    e == Error::MessageTooLong && text.len() > MAX_MESSAGE_LEN_BYTES
                },
            },
    {
        if text.is_empty() {
            return Err(Error::EmptyMessage);
        }
        if text.len() > MAX_MESSAGE_LEN_BYTES {
            return Err(Error::MessageTooLong);
        }
        Ok(Message { text: text.to_owned() })
    }

    pub fn text(&self) -> (r: &str)
        ensures
            r@ == self@,
    {
        self.text.as_str()
    }
}

/// What an encoded part stands for, as a mathematical value.
pub enum Symbol {
    Character(Seq<char>),
    End,
}

/// What a single encoded part shows: its symbol and its snapshot.
pub type PartView = (Symbol, ShutterPositions);

/// A displayed symbol: one normalised character, or the end-of-message marker.
#[derive(Debug)]
pub enum MessageComponent {
    Character(String),
    End,
}

impl View for MessageComponent {
    type V = Symbol;

    open spec fn view(&self) -> Symbol {
        match self {
            MessageComponent::Character(s) => Symbol::Character(s@),
            MessageComponent::End => Symbol::End,
        }
    }
}

impl Clone for MessageComponent {
    fn clone(&self) -> (r: MessageComponent)
        ensures
            r@ == self@,
    {
        match self {
            MessageComponent::Character(s) => MessageComponent::Character(s.clone()),
            MessageComponent::End => MessageComponent::End,
        }
    }
}

/// A symbol paired with the snapshot that displays it.
#[derive(Debug)]
pub struct EncodedMessagePart {
    element: MessageComponent,
    shutter_positions: ShutterPositions,
}

impl View for EncodedMessagePart {
    type V = PartView;

    closed spec fn view(&self) -> PartView {
        (self.element@, self.shutter_positions)
    }
}

impl Clone for EncodedMessagePart {
    fn clone(&self) -> (r: EncodedMessagePart)
        ensures
            r@ == self@,
    {
        EncodedMessagePart {
            element: self.element.clone(),
            shutter_positions: self.shutter_positions,
        }
    }
}

impl EncodedMessagePart {
    pub fn new(element: MessageComponent, encoding: ShutterPositions) -> (r: EncodedMessagePart)
        ensures
            r@ == (element@, encoding),
    {
        EncodedMessagePart { element, shutter_positions: encoding }
    }

    pub fn element(&self) -> (r: &MessageComponent)
        ensures
            r@ == self@.0,
    {
        &self.element
    }

    pub fn shutter_positions(&self) -> (r: &ShutterPositions)
        ensures
            *r == self@.1,
    {
        &self.shutter_positions
    }
}

/// The views of a sequence of parts.
pub open spec fn parts_view(parts: Seq<EncodedMessagePart>) -> Seq<PartView> {
    parts.map_values(|p: EncodedMessagePart| p@)
}

/// A well-formed encoded message: at least one part, the last is the end
/// marker, and every other part is a character.
pub open spec fn parts_valid(parts: Seq<PartView>) -> bool {
    &&& parts.len() > 0
    &&& parts.last().0 is End
    &&& forall|i: int| 0 <= i < parts.len() - 1 ==> (#[trigger] parts[i]).0 is Character
}

/// How many parts are end markers.
pub open spec fn end_count(parts: Seq<PartView>) -> nat
    decreases parts.len(),
{
    if parts.len() == 0 {
        0
    } else {
        end_count(parts.drop_last()) + if parts.last().0 is End {
            1nat
        } else {
            0nat
        }
    }
}

/// Every valid encoded message holds exactly one end marker, and it is the
/// last part.
pub proof fn lemma_single_end_last(parts: Seq<PartView>)
    requires
        parts_valid(parts),
    ensures
        end_count(parts) == 1,
        parts.last().0 is End,
        forall|i: int| 0 <= i < parts.len() && (#[trigger] parts[i]).0 is End ==> i == parts.len()
            - 1,
{
    lemma_no_end(parts.drop_last());
}

proof fn lemma_no_end(parts: Seq<PartView>)
    requires
        forall|i: int| 0 <= i < parts.len() ==> (#[trigger] parts[i]).0 is Character,
    ensures
        end_count(parts) == 0,
    decreases parts.len(),
{
    if parts.len() > 0 {
        assert(parts.last() == parts[parts.len() - 1]);
        lemma_no_end(parts.drop_last());
    }
}

/// An ordered sequence of parts that ends with exactly one end marker.
#[derive(Debug)]
pub struct EncodedMessage {
    parts: Vec<EncodedMessagePart>,
}

impl View for EncodedMessage {
    type V = Seq<PartView>;

    closed spec fn view(&self) -> Seq<PartView> {
        parts_view(self.parts@)
    }
}

impl EncodedMessage {
    #[verifier::type_invariant]
    closed spec fn well_formed(self) -> bool {
        parts_valid(self@)
    }

    /// Assembles a message from its parts; refused unless the parts are valid.
    pub fn new(parts: Vec<EncodedMessagePart>) -> (r: Result<EncodedMessage, Error>)
        ensures
            match r {
                Ok(m) => parts_valid(parts_view(parts@)) && m@ == parts_view(parts@),
                Err(e) => !parts_valid(parts_view(parts@)) && e == Error::MalformedEncodedMessage,
            },
    {
        let n = parts.len();
        if n == 0 {
            return Err(Error::MalformedEncodedMessage);
        }
        let mut i: usize = 0;
        while i < n
            invariant
                n == parts@.len(),
                i <= n,
                forall|j: int| 0 <= j < i && j < n - 1 ==> (#[trigger] parts@[j])@.0 is Character,
                i == n ==> parts@[n - 1]@.0 is End,
            decreases n - i,
        {
            assert(parts_view(parts@)[i as int] == parts@[i as int]@);
            match parts[i].element() {
                MessageComponent::Character(_) => {
                    if i == n - 1 {
                        return Err(Error::MalformedEncodedMessage);
                    }
                },
                MessageComponent::End => {
                    if i != n - 1 {
                        return Err(Error::MalformedEncodedMessage);
                    }
                },
            }
            i = i + 1;
        }
        let ghost v = parts_view(parts@);
        assert(parts_valid(v)) by {
            assert(v.last() == parts@[n - 1]@);
            assert forall|j: int| 0 <= j < v.len() - 1 implies (#[trigger] v[j]).0 is Character by {
                assert(v[j] == parts@[j]@);
            }
        }
        Ok(EncodedMessage { parts })
    }

    /// The parts, taken out of the message.
    pub fn into_parts(self) -> (r: Vec<EncodedMessagePart>)
        ensures
            parts_view(r@) == self@,
            parts_valid(self@),
    {
        proof {
            use_type_invariant(&self);
        }
        self.parts
    }

    pub fn parts(&self) -> (r: &[EncodedMessagePart])
        ensures
            parts_view(r@) == self@,
            parts_valid(self@),
    {
        proof {
            use_type_invariant(self);
        }
        self.parts.as_slice()
    }
}

impl Clone for EncodedMessage {
    fn clone(&self) -> (r: EncodedMessage)
        ensures
            r@ == self@,
    {
        proof {
            use_type_invariant(self);
        }
        let parts = self.parts.clone();
        assert(parts_view(parts@) =~= parts_view(self.parts@)) by {
            assert forall|i: int| 0 <= i < parts@.len() implies parts@[i]@ == self.parts@[i]@ by {
                assert(cloned::<EncodedMessagePart>(self.parts@[i], parts@[i]));
            }
        }
        EncodedMessage { parts }
    }
}

/// A copy of a list of parts.
pub fn clone_parts(parts: &Vec<EncodedMessagePart>) -> (r: Vec<EncodedMessagePart>)
    ensures
        parts_view(r@) == parts_view(parts@),
        r@.len() == parts@.len(),
{
    let r = parts.clone();
    assert(parts_view(r@) =~= parts_view(parts@)) by {
        assert forall|i: int| 0 <= i < r@.len() implies r@[i]@ == parts@[i]@ by {
            assert(cloned::<EncodedMessagePart>(parts@[i], r@[i]));
        }
    }
    r
}

/// The message being shown: the parts already shown, the one on display (if
/// any), and those still to come.
#[derive(Debug)]
pub struct CurrentMessage {
    before: Vec<EncodedMessagePart>,
    current: Option<EncodedMessagePart>,
    after: Vec<EncodedMessagePart>,
}

/// The view of a message being shown.
pub struct CurrentMessageView {
    pub before: Seq<PartView>,
    pub current: Option<PartView>,
    pub after: Seq<PartView>,
}

pub open spec fn option_part_view(p: Option<EncodedMessagePart>) -> Option<PartView> {
    match p {
        Some(p) => Some(p@),
        None => None,
    }
}

impl View for CurrentMessage {
    type V = CurrentMessageView;

    closed spec fn view(&self) -> CurrentMessageView {
        CurrentMessageView {
            before: parts_view(self.before@),
            current: option_part_view(self.current),
            after: parts_view(self.after@),
        }
    }
}

impl CurrentMessage {
    pub fn new(
        before: Vec<EncodedMessagePart>,
        current: Option<EncodedMessagePart>,
        after: Vec<EncodedMessagePart>,
    ) -> (r: CurrentMessage)
        ensures
            r@ == (CurrentMessageView {
                before: parts_view(before@),
                current: option_part_view(current),
                after: parts_view(after@),
            }),
    {
        CurrentMessage { before, current, after }
    }

    pub fn before(&self) -> (r: &[EncodedMessagePart])
        ensures
            parts_view(r@) == self@.before,
    {
        self.before.as_slice()
    }

    pub fn current(&self) -> (r: Option<&EncodedMessagePart>)
        ensures
            match r {
                Some(p) => self@.current == Some(p@),
                None => self@.current is None,
            },
    {
        match &self.current {
            Some(p) => Some(p),
            None => None,
        }
    }

    pub fn after(&self) -> (r: &[EncodedMessagePart])
        ensures
            parts_view(r@) == self@.after,
    {
        self.after.as_slice()
    }
}

} // verus!
