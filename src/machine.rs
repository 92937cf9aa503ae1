use crate::errors::Error;
use crate::message::{
    clone_parts, parts_view, CurrentMessage, CurrentMessageView, EncodedMessage,
    EncodedMessagePart, PartView,
};
use crate::queue::{MessagesToInject, Queue};
use crate::shutters::ShutterPositions;
use crate::time::{DateTime, Duration};
use vstd::prelude::*;

verus! {

/// How long each step of the display lasts.
#[derive(Debug, Clone, Copy, PartialEq, Eq, Structural)]
pub struct TimingConfig {
    show_character_for: Duration,
    pause_between_characters_for: Duration,
    pause_between_messages_for: Duration,
    inject_message_if_no_next_message_after_pausing_between_messages_for: Duration,
}

/// The durations of a timing configuration, in milliseconds.
pub struct TimingView {
    pub show: int,
    pub pause_between_characters: int,
    pub pause_between_messages: int,
    pub inject_after: int,
}

impl View for TimingConfig {
    type V = TimingView;

    closed spec fn view(&self) -> TimingView {
        TimingView {
            show: self.show_character_for@,
            pause_between_characters: self.pause_between_characters_for@,
            pause_between_messages: self.pause_between_messages_for@,
            inject_after: self.inject_message_if_no_next_message_after_pausing_between_messages_for@,
        }
    }
}

impl TimingConfig {
    pub fn new(
        show_character_for: Duration,
        pause_between_characters_for: Duration,
        pause_between_messages_for: Duration,
        inject_message_if_no_next_message_after_pausing_between_messages_for: Duration,
    ) -> (r: TimingConfig)
        ensures
            r@ == (TimingView {
                show: show_character_for@,
                pause_between_characters: pause_between_characters_for@,
                pause_between_messages: pause_between_messages_for@,
                inject_after: inject_message_if_no_next_message_after_pausing_between_messages_for@,
            }),
    {
        TimingConfig {
            show_character_for,
            pause_between_characters_for,
            pause_between_messages_for,
            inject_message_if_no_next_message_after_pausing_between_messages_for,
        }
    }

    pub fn show_character_for(&self) -> (r: &Duration)
        ensures
            r@ == self@.show,
    {
        &self.show_character_for
    }

    pub fn pause_between_characters_for(&self) -> (r: &Duration)
        ensures
            r@ == self@.pause_between_characters,
    {
        &self.pause_between_characters_for
    }

    pub fn pause_between_messages_for(&self) -> (r: &Duration)
        ensures
            r@ == self@.pause_between_messages,
    {
        &self.pause_between_messages_for
    }

    pub fn inject_message_if_no_next_message_after_pausing_between_messages_for(&self) -> (r:
        &Duration)
        ensures
            r@ == self@.inject_after,
    {
        &self.inject_message_if_no_next_message_after_pausing_between_messages_for
    }
}

/// The state of the display, as a mathematical value.
pub enum StateView {
    WaitingForNextMessage { started_at: int },
    ShowingCharacter {
        before: Seq<PartView>,
        current: PartView,
        after: Seq<PartView>,
        started_at: int,
    },
    PausingBetweenCharacters { before: Seq<PartView>, after: Seq<PartView>, started_at: int },
    PausingBetweenMessages { started_at: int },
}

/// The first part of `message` on display from `now`.
pub open spec fn showing_first(message: Seq<PartView>, now: int) -> StateView {
    StateView::ShowingCharacter {
        before: Seq::empty(),
        current: message[0],
        after: message.drop_first(),
        started_at: now,
    }
}

/// One tick of the display at time `now`: the next state, the buffer after
/// it, and whether a transition took place. `filler` is the message drawn
/// from the pool, if the pool is not empty.
pub open spec fn step(
    s: StateView,
    timing: TimingView,
    queue: Seq<Seq<PartView>>,
    filler: Option<Seq<PartView>>,
    now: int,
) -> (StateView, Seq<Seq<PartView>>, bool) {
    match s {
        StateView::WaitingForNextMessage { started_at } => {
            if queue.len() > 0 {
                (showing_first(queue.last(), now), queue.drop_last(), true)
            } else if now - started_at >= timing.inject_after && filler is Some {
                (showing_first(filler->0, now), queue, true)
            } else {
                (s, queue, false)
            }
        },
        StateView::ShowingCharacter { before, current, after, started_at } => {
            if now - started_at < timing.show {
                (s, queue, false)
            } else if after.len() > 0 {
                (
                    StateView::PausingBetweenCharacters {
                        before: before.push(current),
                        after,
                        started_at: now,
                    },
                    queue,
                    true,
                )
            } else {
                (StateView::PausingBetweenMessages { started_at: now }, queue, true)
            }
        },
        StateView::PausingBetweenCharacters { before, after, started_at } => {
            if now - started_at < timing.pause_between_characters {
                (s, queue, false)
            } else {
                (
                    StateView::ShowingCharacter {
                        before,
                        current: after[0],
                        after: after.drop_first(),
                        started_at: now,
                    },
                    queue,
                    true,
                )
            }
        },
        StateView::PausingBetweenMessages { started_at } => {
            if now - started_at < timing.pause_between_messages {
                (s, queue, false)
            } else {
                (StateView::WaitingForNextMessage { started_at: now }, queue, true)
            }
        },
    }
}

/// What observers see of a state: nothing while waiting or between
/// messages; the message with its current part while a character is shown;
/// the message without a current part between characters.
pub open spec fn current_message_of(s: StateView) -> Option<CurrentMessageView> {
    match s {
        StateView::ShowingCharacter { before, current, after, .. } => Some(
            CurrentMessageView { before, current: Some(current), after },
        ),
        StateView::PausingBetweenCharacters { before, after, .. } => Some(
            CurrentMessageView { before, current: None, after },
        ),
        _ => None,
    }
}

/// The snapshot the shutters should show in a state: the current part's
/// while a character is shown, all closed otherwise.
pub open spec fn desired_positions(s: StateView) -> ShutterPositions {
    match s {
        StateView::ShowingCharacter { current, .. } => current.1,
        _ => ShutterPositions::closed(),
    }
}

/// The states, buffers and outcomes of ticks at the times `nows`, in turn,
/// when no filler is ever drawn.
pub open spec fn run_without_fillers(
    s: StateView,
    timing: TimingView,
    queue: Seq<Seq<PartView>>,
    nows: Seq<int>,
) -> (StateView, Seq<Seq<PartView>>, Seq<bool>)
    decreases nows.len(),
{
    if nows.len() == 0 {
        (s, queue, Seq::empty())
    } else {
        let (s1, q1, changes) = run_without_fillers(s, timing, queue, nows.drop_last());
        let (s2, q2, changed) = step(s1, timing, q1, None, nows.last());
        (s2, q2, changes.push(changed))
    }
}

/// A waiting display with an empty buffer and an empty pool stays as it is
/// at every tick, and shows no message.
pub proof fn lemma_idle_without_fillers(started_at: int, timing: TimingView, nows: Seq<int>)
    ensures
        ({
            let s = StateView::WaitingForNextMessage { started_at };
            let (last, queue, changes) = run_without_fillers(s, timing, Seq::empty(), nows);
            &&& last == s
            &&& queue == Seq::<Seq<PartView>>::empty()
            &&& changes.len() == nows.len()
            &&& forall|i: int| 0 <= i < changes.len() ==> !changes[i]
            &&& current_message_of(last) is None
        }),
    decreases nows.len(),
{
    if nows.len() > 0 {
        lemma_idle_without_fillers(started_at, timing, nows.drop_last());
    }
}

/// A waiting display with an empty buffer and a filler drawn from its pool
/// stays as it is until it has waited `inject_after`, and then shows the
/// filler's first part.
pub proof fn lemma_filler_after_idle(
    started_at: int,
    timing: TimingView,
    pool: Seq<Seq<PartView>>,
    filler: Seq<PartView>,
    now: int,
)
    requires
        pool.contains(filler),
    ensures
        ({
            let s = StateView::WaitingForNextMessage { started_at };
            let empty = Seq::<Seq<PartView>>::empty();
            if now - started_at < timing.inject_after {
                step(s, timing, empty, Some(filler), now) == (s, empty, false)
            } else {
                step(s, timing, empty, Some(filler), now) == (showing_first(filler, now), empty, true)
            }
        }),
{
}

/// Waiting for the next message, since `started_at`.
#[derive(Debug)]
pub struct ClacksWaitingForNextMessage {
    started_at: DateTime,
}

impl ClacksWaitingForNextMessage {
    pub fn new(started_at: DateTime) -> (r: ClacksWaitingForNextMessage)
        ensures
            r.started_at() == started_at@,
    {
        ClacksWaitingForNextMessage { started_at }
    }

    pub closed spec fn started_at(self) -> int {
        self.started_at@
    }
}

/// Showing the part `current` of a message since `started_at`.
#[derive(Debug)]
pub struct ClacksShowingCharacter {
    before: Vec<EncodedMessagePart>,
    current: EncodedMessagePart,
    after: Vec<EncodedMessagePart>,
    started_at: DateTime,
}

impl View for ClacksShowingCharacter {
    type V = StateView;

    closed spec fn view(&self) -> StateView {
        StateView::ShowingCharacter {
            before: parts_view(self.before@),
            current: self.current@,
            after: parts_view(self.after@),
            started_at: self.started_at@,
        }
    }
}

/// Between two characters of a message since `started_at`; `after` is never
/// empty.
#[derive(Debug)]
pub struct ClacksPausingBetweenCharacters {
    before: Vec<EncodedMessagePart>,
    after: Vec<EncodedMessagePart>,
    started_at: DateTime,
}

impl View for ClacksPausingBetweenCharacters {
    type V = StateView;

    closed spec fn view(&self) -> StateView {
        StateView::PausingBetweenCharacters {
            before: parts_view(self.before@),
            after: parts_view(self.after@),
            started_at: self.started_at@,
        }
    }
}

impl ClacksShowingCharacter {
    /// The first part of a message on display from `started_at`.
    pub fn new_message(message: EncodedMessage, started_at: DateTime) -> (r:
        ClacksShowingCharacter)
        ensures
            r@ == showing_first(message@, started_at@),
    {
        let mut parts = message.into_parts();
        let ghost all = parts@;
        let first = parts.remove(0);
        assert(parts_view(parts@) =~= parts_view(all).drop_first());
        let before: Vec<EncodedMessagePart> = Vec::new();
        assert(parts_view(before@) =~= Seq::<PartView>::empty());
        ClacksShowingCharacter { before, current: first, after: parts, started_at }
    }

    /// The next part after a pause between characters, on display from
    /// `started_at`.
    pub fn next_character(state: &ClacksPausingBetweenCharacters, started_at: DateTime) -> (r:
        ClacksShowingCharacter)
        ensures
            match state@ {
                StateView::PausingBetweenCharacters { before, after, .. } => r@
                    == (StateView::ShowingCharacter {
                    before,
                    current: after[0],
                    after: after.drop_first(),
                    started_at: started_at@,
                }),
                _ => false,
            },
    {
        proof {
            use_type_invariant(state);
        }
        let before = clone_parts(&state.before);
        let mut after = clone_parts(&state.after);
        let ghost all = after@;
        let current = after.remove(0);
        assert(parts_view(after@) =~= parts_view(all).drop_first());
        ClacksShowingCharacter { before, current, after, started_at }
    }
}

impl ClacksPausingBetweenCharacters {
    #[verifier::type_invariant]
    closed spec fn well_formed(self) -> bool {
        self.after@.len() > 0
    }

    /// The pause after the part on display; refused when no part follows it.
    pub fn new(state: &ClacksShowingCharacter, started_at: DateTime) -> (r: Result<
        ClacksPausingBetweenCharacters,
        Error,
    >)
        ensures
            match state@ {
                StateView::ShowingCharacter { before, current, after, .. } => match r {
                    Ok(p) => after.len() > 0 && p@ == (StateView::PausingBetweenCharacters {
                        before: before.push(current),
                        after,
                        started_at: started_at@,
                    }),
                    Err(e) => after.len() == 0 && e == Error::InvariantViolation,
                },
                _ => false,
            },
    {
        if state.after.len() == 0 {
            return Err(Error::InvariantViolation);
        }
        let mut before = clone_parts(&state.before);
        let ghost old_before = before@;
        before.push(state.current.clone());
        assert(parts_view(before@) =~= parts_view(old_before).push(state.current@));
        let after = clone_parts(&state.after);
        Ok(ClacksPausingBetweenCharacters { before, after, started_at })
    }
}

/// Between two messages, since `started_at`.
#[derive(Debug)]
pub struct ClacksPausingBetweenMessages {
    started_at: DateTime,
}

impl ClacksPausingBetweenMessages {
    pub fn new(started_at: DateTime) -> (r: ClacksPausingBetweenMessages)
        ensures
            r.started_at() == started_at@,
    {
        ClacksPausingBetweenMessages { started_at }
    }

    pub closed spec fn started_at(self) -> int {
        self.started_at@
    }
}

/// The four states of the display.
#[derive(Debug)]
pub enum ClacksState {
    WaitingForNextMessage(ClacksWaitingForNextMessage),
    ShowingCharacter(ClacksShowingCharacter),
    PausingBetweenCharacters(ClacksPausingBetweenCharacters),
    PausingBetweenMessages(ClacksPausingBetweenMessages),
}

impl View for ClacksState {
    type V = StateView;

    open spec fn view(&self) -> StateView {
        match self {
            ClacksState::WaitingForNextMessage(w) => StateView::WaitingForNextMessage {
                started_at: w.started_at(),
            },
            ClacksState::ShowingCharacter(s) => s@,
            ClacksState::PausingBetweenCharacters(p) => p@,
            ClacksState::PausingBetweenMessages(p) => StateView::PausingBetweenMessages {
                started_at: p.started_at(),
            },
        }
    }
}

/// Whether a call to `update` moved the display to another state.
#[derive(Debug, Clone, Copy, PartialEq, Eq, Structural)]
pub enum ClacksUpdateResult {
    StateChanged,
    StateNotChanged,
}

/// The display's model: its state, its timing and its pool of fillers.
pub struct ClacksView {
    pub state: StateView,
    pub timing: TimingView,
    pub pool: Seq<Seq<PartView>>,
}

/// The timed state machine that decides, tick by tick, what the display shows.
#[derive(Debug)]
pub struct Clacks {
    current_state: ClacksState,
    config: TimingConfig,
    messages_to_inject: MessagesToInject,
}

impl View for Clacks {
    type V = ClacksView;

    closed spec fn view(&self) -> ClacksView {
        ClacksView {
            state: self.current_state@,
            timing: self.config@,
            pool: self.messages_to_inject@,
        }
    }
}

pub open spec fn filler_view(filler: Option<EncodedMessage>) -> Option<Seq<PartView>> {
    match filler {
        Some(m) => Some(m@),
        None => None,
    }
}

impl Clacks {
    /// A display waiting for its first message since the current time.
    pub fn new(config: TimingConfig, messages_to_inject: MessagesToInject) -> (r: Clacks)
        ensures
            r@.state is WaitingForNextMessage,
            r@.timing == config@,
            r@.pool == messages_to_inject@,
    {
        let now = DateTime::now();
        Clacks::new_at(config, messages_to_inject, now)
    }

    /// A display waiting for its first message since `now`.
    pub fn new_at(config: TimingConfig, messages_to_inject: MessagesToInject, now: DateTime) -> (r:
        Clacks)
        ensures
            r@ == (ClacksView {
                state: StateView::WaitingForNextMessage { started_at: now@ },
                timing: config@,
                pool: messages_to_inject@,
            }),
    {
        Clacks {
            current_state: ClacksState::WaitingForNextMessage(
                ClacksWaitingForNextMessage::new(now),
            ),
            config,
            messages_to_inject,
        }
    }

    /// One tick at the current time, with a filler drawn from the pool.
    pub fn update(&mut self, queue: &mut Queue) -> (r: ClacksUpdateResult)
        ensures
            final(self)@.timing == old(self)@.timing,
            final(self)@.pool == old(self)@.pool,
            final(queue).capacity() == old(queue).capacity(),
            exists|now: int, filler: Option<Seq<PartView>>|
                {
                    &&& (filler is None <==> old(self)@.pool.len() == 0)
                    &&& (filler matches Some(f) ==> old(self)@.pool.contains(f))
                    &&& #[trigger] step(old(self)@.state, old(self)@.timing, old(queue)@, filler, now)
                        == (final(self)@.state, final(queue)@, r == ClacksUpdateResult::StateChanged)
                },
    {
        let now = DateTime::now();
        let filler = match self.messages_to_inject.get() {
            Some(m) => Some(m.clone()),
            None => None,
        };
        self.update_at(queue, &now, filler)
    }

    /// One tick at time `now`. `filler` is shown if the display has waited
    /// long enough with an empty buffer.
    pub fn update_at(&mut self, queue: &mut Queue, now: &DateTime, filler: Option<EncodedMessage>) -> (r:
        ClacksUpdateResult)
        ensures
            final(self)@.timing == old(self)@.timing,
            final(self)@.pool == old(self)@.pool,
            final(queue).capacity() == old(queue).capacity(),
            step(old(self)@.state, old(self)@.timing, old(queue)@, filler_view(filler), now@) == (
                final(self)@.state,
                final(queue)@,
                r == ClacksUpdateResult::StateChanged,
            ),
    {
        let next: Option<ClacksState> = match &self.current_state {
            ClacksState::WaitingForNextMessage(w) => {
                match queue.pop_message() {
                    Some(m) => Some(
                        ClacksState::ShowingCharacter(ClacksShowingCharacter::new_message(m, *now)),
                    ),
                    None => {
                        if now.is_at_least_after(
                            &w.started_at,
                            self.config.inject_message_if_no_next_message_after_pausing_between_messages_for(),
                        ) {
                            match filler {
                                Some(m) => Some(
                                    ClacksState::ShowingCharacter(
                                        ClacksShowingCharacter::new_message(m, *now),
                                    ),
                                ),
                                None => None,
                            }
                        } else {
                            None
                        }
                    },
                }
            },
            ClacksState::ShowingCharacter(s) => {
                if !now.is_at_least_after(&s.started_at, self.config.show_character_for()) {
                    None
                } else if s.after.len() > 0 {
                    match ClacksPausingBetweenCharacters::new(s, *now) {
                        Ok(p) => Some(ClacksState::PausingBetweenCharacters(p)),
                        Err(_) => None,
                    }
                } else {
                    Some(
                        ClacksState::PausingBetweenMessages(
                            ClacksPausingBetweenMessages::new(*now),
                        ),
                    )
                }
            },
            ClacksState::PausingBetweenCharacters(p) => {
                if !now.is_at_least_after(&p.started_at, self.config.pause_between_characters_for()) {
                    None
                } else {
                    Some(
                        ClacksState::ShowingCharacter(
                            ClacksShowingCharacter::next_character(p, *now),
                        ),
                    )
                }
            },
            ClacksState::PausingBetweenMessages(p) => {
                if !now.is_at_least_after(&p.started_at, self.config.pause_between_messages_for()) {
                    None
                } else {
                    Some(
                        ClacksState::WaitingForNextMessage(ClacksWaitingForNextMessage::new(*now)),
                    )
                }
            },
        };
        match next {
            Some(state) => {
                self.current_state = state;
                ClacksUpdateResult::StateChanged
            },
            None => ClacksUpdateResult::StateNotChanged,
        }
    }

    /// The message being shown, if any; the current part is left out during
    /// a pause between characters.
    pub fn current_message(&self) -> (r: Option<CurrentMessage>)
        ensures
            match r {
                Some(m) => current_message_of(self@.state) == Some(m@),
                None => current_message_of(self@.state) is None,
            },
    {
        match &self.current_state {
            ClacksState::ShowingCharacter(s) => Some(
                CurrentMessage::new(
                    clone_parts(&s.before),
                    Some(s.current.clone()),
                    clone_parts(&s.after),
                ),
            ),
            ClacksState::PausingBetweenCharacters(p) => Some(
                CurrentMessage::new(clone_parts(&p.before), None, clone_parts(&p.after)),
            ),
            _ => None,
        }
    }

    /// The snapshot the shutters should show now.
    pub fn get_desired_shutter_positions(&self) -> (r: ShutterPositions)
        ensures
            r == desired_positions(self@.state),
    {
        match &self.current_state {
            ClacksState::ShowingCharacter(s) => *s.current.shutter_positions(),
            _ => ShutterPositions::new_with_all_closed(),
        }
    }

    /// The state the display is in.
    pub fn state(&self) -> (r: &ClacksState)
        ensures
            r@ == self@.state,
    {
        &self.current_state
    }
}

} // verus!
