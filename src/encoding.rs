use crate::errors::Error;
use crate::message::{
    parts_valid, parts_view, EncodedMessage, EncodedMessagePart, Message, MessageComponent,
    PartView, Symbol,
};
use crate::shutters::ShutterPositions;
use vstd::prelude::*;

verus! {

/// The upper-case form that `str::to_uppercase` gives for a string.
pub uninterp spec fn uppercase_of(s: Seq<char>) -> Seq<char>;

/// Relies on `str::to_uppercase`: its result depends on the characters of
/// the input alone.
#[verifier::external_body]
fn to_uppercase(s: &str) -> (r: String)
    ensures
        r@ == uppercase_of(s@),
{
    s.to_uppercase()
}

/// A repertoire entry: a character (as a string) and its snapshot.
pub type EntryView = (Seq<char>, ShutterPositions);

/// The views of a list of repertoire entries.
pub open spec fn entries_view(entries: Seq<(String, ShutterPositions)>) -> Seq<EntryView> {
    entries.map_values(|e: (String, ShutterPositions)| (e.0@, e.1))
}

/// The repertoire with each character replaced by its upper-case form.
pub open spec fn normalized_entries(entries: Seq<EntryView>) -> Seq<EntryView> {
    entries.map_values(|e: EntryView| (uppercase_of(e.0), e.1))
}

/// Why a repertoire and an end snapshot do not form an encoding, checked in
/// this order; `None` when they do.
pub open spec fn config_error(entries: Seq<EntryView>, end: ShutterPositions) -> Option<Error> {
    if entries.len() == 0 {
        Some(Error::EmptyEncoding)
    } else if exists|i: int| 0 <= i < entries.len() && (#[trigger] entries[i]).1.spec_all_closed() {
        Some(Error::AllClosedCharacter)
    } else if exists|i: int, j: int|
        0 <= i < j < entries.len() && (#[trigger] entries[i]).0 == (#[trigger] entries[j]).0 {
        Some(Error::DuplicateCharacter)
    } else if exists|i: int, j: int|
        0 <= i < j < entries.len() && (#[trigger] entries[i]).1 == (#[trigger] entries[j]).1 {
        Some(Error::DuplicateCharacterShutterPositions)
    } else if end.spec_all_closed() {
        Some(Error::AllClosedMessageEnd)
    } else if exists|i: int| 0 <= i < entries.len() && (#[trigger] entries[i]).1 == end {
        Some(Error::DuplicateMessageEndShutterPositions)
    } else {
        None
    }
}

/// The mathematical model of an encoding.
pub struct EncodingView {
    pub characters: Seq<EntryView>,
    pub end: ShutterPositions,
}

impl EncodingView {
    pub open spec fn valid(self) -> bool {
        config_error(self.characters, self.end) is None
    }

    /// The repertoire holds `key`.
    pub open spec fn supports(self, key: Seq<char>) -> bool {
        exists|i: int| 0 <= i < self.characters.len() && (#[trigger] self.characters[i]).0 == key
    }

    /// The snapshot of a character the repertoire holds.
    pub open spec fn positions_of(self, key: Seq<char>) -> ShutterPositions {
        self.characters[choose|i: int|
            0 <= i < self.characters.len() && (#[trigger] self.characters[i]).0 == key].1
    }

    /// The parts that show the given normalised characters, then the end marker.
    pub open spec fn encoded_parts(self, keys: Seq<Seq<char>>) -> Seq<PartView> {
        Seq::new(
            keys.len() + 1,
            |i: int|
                if i < keys.len() {
                    (Symbol::Character(keys[i]), self.positions_of(keys[i]))
                } else {
                    (Symbol::End, self.end)
                },
        )
    }

    /// What a snapshot stands for: the character it shows, the end marker, or
    /// nothing.
    pub open spec fn reverse_lookup(self, positions: ShutterPositions) -> Option<Symbol> {
        if exists|i: int|
            0 <= i < self.characters.len() && (#[trigger] self.characters[i]).1 == positions {
            Some(
                Symbol::Character(
                    self.characters[choose|i: int|
                        0 <= i < self.characters.len() && (#[trigger] self.characters[i]).1
                            == positions].0,
                ),
            )
        } else if positions == self.end {
            Some(Symbol::End)
        } else {
            None
        }
    }
}

/// The normalised key under which each character of a text is looked up.
pub open spec fn normalized_keys(text: Seq<char>) -> Seq<Seq<char>> {
    text.map_values(|c: char| uppercase_of(seq![c]))
}

/// The outcome of encoding characters whose normalised keys are given.
pub open spec fn encode_outcome(
    enc: EncodingView,
    chars: Seq<char>,
    keys: Seq<Seq<char>>,
    r: Result<Seq<PartView>, Error>,
) -> bool {
    match r {
        Ok(parts) => (forall|i: int| 0 <= i < keys.len() ==> enc.supports(#[trigger] keys[i]))
            && parts == enc.encoded_parts(keys),
        Err(e) => exists|i: int|
            0 <= i < keys.len() && !enc.supports(#[trigger] keys[i]) && (forall|j: int|
                0 <= j < i ==> enc.supports(#[trigger] keys[j])) && e
                == Error::CannotEncodeCharacter(chars[i]),
    }
}

pub open spec fn result_view(r: Result<EncodedMessage, Error>) -> Result<Seq<PartView>, Error> {
    match r {
        Ok(m) => Ok(m@),
        Err(e) => Err(e),
    }
}

pub open spec fn component_view(c: Option<MessageComponent>) -> Option<Symbol> {
    match c {
        Some(c) => Some(c@),
        None => None,
    }
}

/// A case-insensitive mapping from characters to snapshots, with a reserved
/// snapshot for the end of a message.
#[derive(Debug)]
pub struct Encoding {
    characters: Vec<(String, ShutterPositions)>,
    message_end: ShutterPositions,
}

impl View for Encoding {
    type V = EncodingView;

    closed spec fn view(&self) -> EncodingView {
        EncodingView { characters: entries_view(self.characters@), end: self.message_end }
    }
}

impl Encoding {
    #[verifier::type_invariant]
    closed spec fn well_formed(self) -> bool {
        self@.valid()
    }

    /// Builds an encoding whose characters are upper-cased first.
    pub fn new(characters: Vec<(String, ShutterPositions)>, message_end: ShutterPositions) -> (r:
        Result<Encoding, Error>)
        ensures
            ({
                let entries = normalized_entries(entries_view(characters@));
                match r {
                    Ok(e) => config_error(entries, message_end) is None && e@ == (EncodingView {
                        characters: entries,
                        end: message_end,
                    }),
                    Err(err) => config_error(entries, message_end) == Some(err),
                }
            }),
    {
        let mut normalized: Vec<(String, ShutterPositions)> = Vec::new();
        let mut i: usize = 0;
        while i < characters.len()
            invariant
                i <= characters@.len(),
                normalized@.len() == i,
                entries_view(normalized@) =~= normalized_entries(entries_view(characters@)).subrange(
                    0,
                    i as int,
                ),
            decreases characters@.len() - i,
        {
            let key = to_uppercase(characters[i].0.as_str());
            let ghost before = normalized@;
            normalized.push((key, characters[i].1));
            proof {
                let target = normalized_entries(entries_view(characters@));
                assert(entries_view(characters@)[i as int] == (characters@[i as int].0@, characters@[i as int].1));
                assert(target[i as int] == (uppercase_of(characters@[i as int].0@), characters@[i as int].1));
                assert(normalized@ == before.push((key, characters@[i as int].1)));
                assert(entries_view(normalized@)[i as int] == (key@, characters@[i as int].1));
                assert forall|k: int| 0 <= k < i implies entries_view(normalized@)[k] == entries_view(before)[k] by {
                    assert(normalized@[k] == before[k]);
                }
            }
            i = i + 1;
        }
        assert(entries_view(normalized@) =~= normalized_entries(entries_view(characters@)));
        Encoding::with_normalized_keys(normalized, message_end)
    }

    /// Builds an encoding from characters that are already in their
    /// normalised form.
    pub fn with_normalized_keys(
        characters: Vec<(String, ShutterPositions)>,
        message_end: ShutterPositions,
    ) -> (r: Result<Encoding, Error>)
        ensures
            ({
                let entries = entries_view(characters@);
                match r {
                    Ok(e) => config_error(entries, message_end) is None && e@ == (EncodingView {
                        characters: entries,
                        end: message_end,
                    }),
                    Err(err) => config_error(entries, message_end) == Some(err),
                }
            }),
    {
        let ghost entries = entries_view(characters@);
        let n = characters.len();
        assert(entries.len() == n);
        assert forall|k: int| 0 <= k < n implies #[trigger] entries[k] == (characters@[k].0@, characters@[k].1) by {}
        if n == 0 {
            return Err(Error::EmptyEncoding);
        }
        let mut i: usize = 0;
        while i < n
            invariant
                n == characters@.len(),
                entries == entries_view(characters@),
                entries.len() == n,
                forall|k: int| 0 <= k < n ==> #[trigger] entries[k] == (characters@[k].0@, characters@[k].1),
                i <= n,
                forall|k: int| 0 <= k < i ==> !(#[trigger] entries[k]).1.spec_all_closed(),
            decreases n - i,
        {
            if characters[i].1.all_closed() {
                assert(entries[i as int].1.spec_all_closed());
                return Err(Error::AllClosedCharacter);
            }
            i = i + 1;
        }
        i = 0;
        while i < n
            invariant
                n == characters@.len(),
                entries == entries_view(characters@),
                entries.len() == n,
                forall|k: int| 0 <= k < n ==> #[trigger] entries[k] == (characters@[k].0@, characters@[k].1),
                i <= n,
                forall|k: int| 0 <= k < n ==> !(#[trigger] entries[k]).1.spec_all_closed(),
                forall|a: int, b: int|
                    0 <= a < b < n && a < i ==> (#[trigger] entries[a]).0 != (#[trigger] entries[b]).0,
            decreases n - i,
        {
            let mut j: usize = i + 1;
            while j < n
                invariant
                    n == characters@.len(),
                    entries == entries_view(characters@),
                    entries.len() == n,
                    forall|k: int| 0 <= k < n ==> #[trigger] entries[k] == (characters@[k].0@, characters@[k].1),
                    i < n,
                    i + 1 <= j <= n,
                    forall|b: int| i < b < j ==> entries[i as int].0 != (#[trigger] entries[b]).0,
                    forall|k: int| 0 <= k < n ==> !(#[trigger] entries[k]).1.spec_all_closed(),
                decreases n - j,
            {
                if characters[i].0 == characters[j].0 {
                    assert(entries[i as int].0 == entries[j as int].0);
                    return Err(Error::DuplicateCharacter);
                }
                j = j + 1;
            }
            i = i + 1;
        }
        i = 0;
        while i < n
            invariant
                n == characters@.len(),
                entries == entries_view(characters@),
                entries.len() == n,
                forall|k: int| 0 <= k < n ==> #[trigger] entries[k] == (characters@[k].0@, characters@[k].1),
                i <= n,
                forall|k: int| 0 <= k < n ==> !(#[trigger] entries[k]).1.spec_all_closed(),
                forall|a: int, b: int|
                    0 <= a < b < n ==> (#[trigger] entries[a]).0 != (#[trigger] entries[b]).0,
                forall|a: int, b: int|
                    0 <= a < b < n && a < i ==> (#[trigger] entries[a]).1 != (#[trigger] entries[b]).1,
            decreases n - i,
        {
            let mut j: usize = i + 1;
            while j < n
                invariant
                    n == characters@.len(),
                    entries == entries_view(characters@),
                    entries.len() == n,
                    forall|k: int| 0 <= k < n ==> #[trigger] entries[k] == (characters@[k].0@, characters@[k].1),
                    i < n,
                    i + 1 <= j <= n,
                    forall|b: int| i < b < j ==> entries[i as int].1 != (#[trigger] entries[b]).1,
                    forall|k: int| 0 <= k < n ==> !(#[trigger] entries[k]).1.spec_all_closed(),
                    forall|a: int, b: int|
                        0 <= a < b < n ==> (#[trigger] entries[a]).0 != (#[trigger] entries[b]).0,
                decreases n - j,
            {
                if characters[i].1 == characters[j].1 {
                    assert(entries[i as int].1 == entries[j as int].1);
                    return Err(Error::DuplicateCharacterShutterPositions);
                }
                j = j + 1;
            }
            i = i + 1;
        }
        if message_end.all_closed() {
            return Err(Error::AllClosedMessageEnd);
        }
        i = 0;
        while i < n
            invariant
                n == characters@.len(),
                entries == entries_view(characters@),
                entries.len() == n,
                forall|k: int| 0 <= k < n ==> #[trigger] entries[k] == (characters@[k].0@, characters@[k].1),
                i <= n,
                forall|k: int| 0 <= k < i ==> (#[trigger] entries[k]).1 != message_end,
                forall|k: int| 0 <= k < n ==> !(#[trigger] entries[k]).1.spec_all_closed(),
                forall|a: int, b: int|
                    0 <= a < b < n ==> (#[trigger] entries[a]).0 != (#[trigger] entries[b]).0,
                forall|a: int, b: int|
                    0 <= a < b < n ==> (#[trigger] entries[a]).1 != (#[trigger] entries[b]).1,
                !message_end.spec_all_closed(),
            decreases n - i,
        {
            if characters[i].1 == message_end {
                assert(entries[i as int].1 == message_end);
                return Err(Error::DuplicateMessageEndShutterPositions);
            }
            i = i + 1;
        }
        Ok(Encoding { characters, message_end })
    }

    /// The snapshot of a normalised character, if the repertoire holds it.
    fn lookup(&self, key: &String) -> (r: Option<ShutterPositions>)
        ensures
            match r {
                Some(p) => self@.supports(key@) && p == self@.positions_of(key@),
                None => !self@.supports(key@),
            },
    {
        proof {
            use_type_invariant(self);
        }
        let ghost entries = self@.characters;
        let mut i: usize = 0;
        while i < self.characters.len()
            invariant
                entries == entries_view(self.characters@),
                entries.len() == self.characters@.len(),
                i <= entries.len(),
                self@.valid(),
                entries == self@.characters,
                forall|k: int| 0 <= k < i ==> (#[trigger] entries[k]).0 != key@,
            decreases entries.len() - i,
        {
            assert(entries[i as int] == (self.characters@[i as int].0@, self.characters@[i as int].1));
            if self.characters[i].0 == *key {
                proof {
                    assert(entries[i as int].0 == key@);
                    let k = choose|k: int| 0 <= k < entries.len() && (#[trigger] entries[k]).0 == key@;
                    if k != i {
                        if k < i {
                            assert(entries[k].0 != key@);
                        } else {
                            assert(entries[i as int].0 != entries[k].0);
                        }
                    }
                }
                return Some(self.characters[i].1);
            }
            i = i + 1;
        }
        None
    }

    /// Encodes characters whose normalised keys have been computed: each
    /// becomes a character part with its snapshot, and an end part follows.
    /// The first character whose key is not in the repertoire is reported.
    pub fn encode_characters(&self, characters: &Vec<char>, normalized: &Vec<String>) -> (r:
        Result<EncodedMessage, Error>)
        requires
            characters@.len() == normalized@.len(),
        ensures
            encode_outcome(
                self@,
                characters@,
                normalized@.map_values(|s: String| s@),
                result_view(r),
            ),
    {
        let ghost keys = normalized@.map_values(|s: String| s@);
        let ghost expected = self@.encoded_parts(keys);
        let n = normalized.len();
        let mut parts: Vec<EncodedMessagePart> = Vec::new();
        let mut i: usize = 0;
        while i < n
            invariant
                n == normalized@.len(),
                n == characters@.len(),
                keys == normalized@.map_values(|s: String| s@),
                expected == self@.encoded_parts(keys),
                i <= n,
                parts@.len() == i,
                forall|k: int| 0 <= k < i ==> self@.supports(#[trigger] keys[k]),
                forall|k: int| 0 <= k < i ==> (#[trigger] parts@[k])@ == expected[k],
            decreases n - i,
        {
            assert(keys[i as int] == normalized@[i as int]@);
            match self.lookup(&normalized[i]) {
                Some(positions) => {
                    let part = EncodedMessagePart::new(
                        MessageComponent::Character(normalized[i].clone()),
                        positions,
                    );
                    parts.push(part);
                },
                None => {
                    return Err(Error::CannotEncodeCharacter(characters[i]));
                },
            }
            i = i + 1;
        }
        let end = EncodedMessagePart::new(MessageComponent::End, self.message_end);
        parts.push(end);
        assert(parts_view(parts@) =~= expected) by {
            assert forall|k: int| 0 <= k < n + 1 implies parts_view(parts@)[k] == expected[k] by {
                if k < n {
                    assert(parts@[k]@ == expected[k]);
                }
            }
        }
        assert(parts_valid(expected)) by {
            assert forall|k: int| 0 <= k < expected.len() - 1 implies (#[trigger] expected[k]).0 is Character by {}
        }
        match EncodedMessage::new(parts) {
            Ok(m) => Ok(m),
            Err(e) => Err(e),
        }
    }

    /// Encodes a message: each character is upper-cased and looked up.
    pub fn encode(&self, message: &Message) -> (r: Result<EncodedMessage, Error>)
        ensures
            encode_outcome(self@, message@, normalized_keys(message@), result_view(r)),
    {
        let text = message.text();
        let n = text.unicode_len();
        let mut characters: Vec<char> = Vec::new();
        let mut normalized: Vec<String> = Vec::new();
        let mut i: usize = 0;
        while i < n
            invariant
                n == text@.len(),
                text@ == message@,
                i <= n,
                characters@ == text@.subrange(0, i as int),
                normalized@.len() == i,
                forall|k: int| 0 <= k < i ==> (#[trigger] normalized@[k])@ == uppercase_of(seq![text@[k]]),
            decreases n - i,
        {
            let c = text.get_char(i);
            let piece = text.substring_char(i, i + 1);
            assert(piece@ =~= seq![c]);
            let key = to_uppercase(piece);
            characters.push(c);
            normalized.push(key);
            assert(characters@ =~= text@.subrange(0, i + 1));
            i = i + 1;
        }
        assert(characters@ =~= text@);
        assert(normalized@.map_values(|s: String| s@) =~= normalized_keys(message@));
        self.encode_characters(&characters, &normalized)
    }

    /// The repertoire's characters, in the order the encoding was built with.
    pub fn supported_characters(&self) -> (r: Vec<String>)
        ensures
            r@.len() == self@.characters.len(),
            forall|i: int| 0 <= i < r@.len() ==> (#[trigger] r@[i])@ == self@.characters[i].0,
    {
        let mut r: Vec<String> = Vec::new();
        let mut i: usize = 0;
        while i < self.characters.len()
            invariant
                i <= self.characters@.len(),
                r@.len() == i,
                self@.characters == entries_view(self.characters@),
                forall|k: int| 0 <= k < i ==> (#[trigger] r@[k])@ == self@.characters[k].0,
            decreases self.characters@.len() - i,
        {
            r.push(self.characters[i].0.clone());
            i = i + 1;
        }
        r
    }

    /// What a snapshot stands for in this encoding: a character, the end
    /// marker, or nothing.
    pub fn check_usage(&self, positions: &ShutterPositions) -> (r: Option<MessageComponent>)
        ensures
            component_view(r) == self@.reverse_lookup(*positions),
    {
        proof {
            use_type_invariant(self);
        }
        let ghost entries = self@.characters;
        let mut i: usize = 0;
        while i < self.characters.len()
            invariant
                entries == entries_view(self.characters@),
                entries.len() == self.characters@.len(),
                i <= entries.len(),
                self@.valid(),
                entries == self@.characters,
                forall|k: int| 0 <= k < i ==> (#[trigger] entries[k]).1 != *positions,
            decreases entries.len() - i,
        {
            assert(entries[i as int] == (self.characters@[i as int].0@, self.characters@[i as int].1));
            if self.characters[i].1 == *positions {
                proof {
                    let k = choose|k: int| 0 <= k < entries.len() && (#[trigger] entries[k]).1 == *positions;
                    if k != i {
                        if k < i {
                            assert(entries[k].1 != *positions);
                        } else {
                            assert(entries[i as int].1 != entries[k].1);
                        }
                    }
                }
                return Some(MessageComponent::Character(self.characters[i].0.clone()));
            }
            i = i + 1;
        }
        if *positions == self.message_end {
            Some(MessageComponent::End)
        } else {
            None
        }
    }
}

/// A repertoire character that is its own upper-case form encodes, on its
/// own, to its character part followed by the end part; and the reverse
/// lookup of its snapshot gives the character back.
pub proof fn lemma_single_character_round_trip(enc: EncodingView, c: char)
    requires
        enc.valid(),
        enc.supports(seq![c]),
        uppercase_of(seq![c]) == seq![c],
    ensures
        forall|r: Result<Seq<PartView>, Error>|
            #[trigger] encode_outcome(enc, seq![c], normalized_keys(seq![c]), r) ==> r == Ok::<Seq<PartView>, Error>(
                seq![
                    (Symbol::Character(seq![c]), enc.positions_of(seq![c])),
                    (Symbol::End, enc.end),
                ],
            ),
        enc.reverse_lookup(enc.positions_of(seq![c])) == Some(Symbol::Character(seq![c])),
{
    let keys = normalized_keys(seq![c]);
    assert(keys[0] == seq![c]);
    assert(keys.len() == 1);
    let expected = seq![
        (Symbol::Character(seq![c]), enc.positions_of(seq![c])),
        (Symbol::End, enc.end),
    ];
    assert(enc.encoded_parts(keys) =~= expected);
    assert forall|r: Result<Seq<PartView>, Error>|
        #[trigger] encode_outcome(enc, seq![c], keys, r) implies r == Ok::<Seq<PartView>, Error>(expected) by {
        if r is Err {
            let i = choose|i: int|
                0 <= i < keys.len() && !enc.supports(#[trigger] keys[i]) && (forall|j: int|
                    0 <= j < i ==> enc.supports(#[trigger] keys[j])) && r->Err_0
                    == Error::CannotEncodeCharacter(seq![c][i]);
            assert(i == 0);
        }
    }
    let k = choose|k: int| 0 <= k < enc.characters.len() && (#[trigger] enc.characters[k]).0 == seq![c];
    let p = enc.positions_of(seq![c]);
    assert(enc.characters[k].1 == p);
    let j = choose|j: int| 0 <= j < enc.characters.len() && (#[trigger] enc.characters[j]).1 == p;
    if j != k {
        if j < k {
            assert(enc.characters[j].1 != enc.characters[k].1);
        } else {
            assert(enc.characters[k].1 != enc.characters[j].1);
        }
    }
}

/// In a valid encoding no snapshot is all closed, the characters' snapshots
/// are pairwise distinct, and none of them is the end snapshot.
pub proof fn lemma_snapshots_distinct(enc: EncodingView)
    requires
        enc.valid(),
    ensures
        forall|i: int| 0 <= i < enc.characters.len() ==> !(#[trigger] enc.characters[i]).1.spec_all_closed(),
        !enc.end.spec_all_closed(),
        forall|i: int, j: int|
            0 <= i < enc.characters.len() && 0 <= j < enc.characters.len() && i != j ==> (
            #[trigger] enc.characters[i]).1 != (#[trigger] enc.characters[j]).1,
        forall|i: int| 0 <= i < enc.characters.len() ==> (#[trigger] enc.characters[i]).1 != enc.end,
{
    assert forall|i: int, j: int|
        0 <= i < enc.characters.len() && 0 <= j < enc.characters.len() && i != j implies (
        #[trigger] enc.characters[i]).1 != (#[trigger] enc.characters[j]).1 by {
        if i > j {
            assert(enc.characters[j].1 != enc.characters[i].1);
        }
    }
}

/// A repertoire with an all-closed or repeated snapshot, or an end snapshot
/// that is all closed or shared with a character, is refused, whether or not
/// its characters are normalised first.
pub proof fn lemma_bad_snapshots_refused(entries: Seq<EntryView>, end: ShutterPositions)
    requires
        (exists|i: int| 0 <= i < entries.len() && (#[trigger] entries[i]).1.spec_all_closed()) || (
        exists|i: int, j: int|
            0 <= i < j < entries.len() && (#[trigger] entries[i]).1 == (#[trigger] entries[j]).1)
            || end.spec_all_closed() || (exists|i: int|
            0 <= i < entries.len() && (#[trigger] entries[i]).1 == end),
    ensures
        config_error(entries, end) is Some,
        config_error(normalized_entries(entries), end) is Some,
{
    let n = normalized_entries(entries);
    assert(n.len() == entries.len());
    assert forall|i: int| 0 <= i < entries.len() implies (#[trigger] n[i]).1 == entries[i].1 by {}
    if exists|i: int| 0 <= i < entries.len() && (#[trigger] entries[i]).1.spec_all_closed() {
        let i = choose|i: int| 0 <= i < entries.len() && (#[trigger] entries[i]).1.spec_all_closed();
        assert(n[i].1.spec_all_closed());
    } else if exists|i: int, j: int|
        0 <= i < j < entries.len() && (#[trigger] entries[i]).1 == (#[trigger] entries[j]).1 {
        let (i, j) = choose|i: int, j: int|
            0 <= i < j < entries.len() && (#[trigger] entries[i]).1 == (#[trigger] entries[j]).1;
        assert(n[i].1 == n[j].1);
    } else if !end.spec_all_closed() {
        let i = choose|i: int| 0 <= i < entries.len() && (#[trigger] entries[i]).1 == end;
        assert(n[i].1 == end);
    }
}

/// The snapshot with the given locations open, top to bottom and left to right.
pub open spec fn snapshot(
    top_left: bool,
    top_right: bool,
    middle_left: bool,
    middle_right: bool,
    bottom_left: bool,
    bottom_right: bool,
) -> ShutterPositions {
    ShutterPositions { top_left, top_right, middle_left, middle_right, bottom_left, bottom_right }
}

/// How many characters the built-in repertoire holds.
pub const DEFAULT_REPERTOIRE_LEN: usize = 37;

/// The built-in repertoire, entry by entry: the letters, space and the digits.
pub open spec fn default_entry(i: int) -> (char, ShutterPositions) {
    if i == 0 {
        ('A', snapshot(false, false, true, false, false, true))
    } else if i == 1 {
        ('B', snapshot(false, false, false, true, true, false))
    } else if i == 2 {
        ('C', snapshot(false, false, true, true, false, false))
    } else if i == 3 {
        ('D', snapshot(true, false, false, false, true, false))
    } else if i == 4 {
        ('E', snapshot(true, true, false, false, true, false))
    } else if i == 5 {
        ('F', snapshot(true, true, true, false, false, false))
    } else if i == 6 {
        ('G', snapshot(true, true, false, true, false, false))
    } else if i == 7 {
        ('H', snapshot(true, false, false, false, true, true))
    } else if i == 8 {
        ('I', snapshot(true, false, true, false, true, false))
    } else if i == 9 {
        ('J', snapshot(false, true, false, true, true, true))
    } else if i == 10 {
        ('K', snapshot(false, true, true, false, false, true))
    } else if i == 11 {
        ('L', snapshot(true, false, true, false, true, true))
    } else if i == 12 {
        ('M', snapshot(true, false, true, true, true, true))
    } else if i == 13 {
        ('N', snapshot(false, true, true, false, true, true))
    } else if i == 14 {
        ('O', snapshot(true, true, true, true, false, false))
    } else if i == 15 {
        ('P', snapshot(true, true, true, true, true, false))
    } else if i == 16 {
        ('Q', snapshot(true, true, false, true, true, false))
    } else if i == 17 {
        ('R', snapshot(true, true, true, false, true, false))
    } else if i == 18 {
        ('S', snapshot(false, true, true, true, true, false))
    } else if i == 19 {
        ('T', snapshot(true, true, false, true, false, true))
    } else if i == 20 {
        ('U', snapshot(false, false, false, true, true, true))
    } else if i == 21 {
        ('V', snapshot(false, false, true, false, true, true))
    } else if i == 22 {
        ('W', snapshot(true, true, true, false, false, true))
    } else if i == 23 {
        ('X', snapshot(true, false, false, true, true, false))
    } else if i == 24 {
        ('Y', snapshot(true, false, false, true, false, true))
    } else if i == 25 {
        ('Z', snapshot(true, false, true, true, false, true))
    } else if i == 26 {
        (' ', snapshot(false, false, false, false, true, false))
    } else if i == 27 {
        ('1', snapshot(true, false, false, false, false, false))
    } else if i == 28 {
        ('2', snapshot(false, true, false, false, false, false))
    } else if i == 29 {
        ('3', snapshot(true, true, false, false, false, false))
    } else if i == 30 {
        ('4', snapshot(false, false, true, false, false, false))
    } else if i == 31 {
        ('5', snapshot(true, false, true, false, false, false))
    } else if i == 32 {
        ('6', snapshot(false, true, true, false, false, false))
    } else if i == 33 {
        ('7', snapshot(false, false, false, true, false, false))
    } else if i == 34 {
        ('8', snapshot(true, false, false, true, false, false))
    } else if i == 35 {
        ('9', snapshot(false, true, false, true, false, false))
    } else if i == 36 {
        ('0', snapshot(true, false, true, true, false, false))
    } else {
        (' ', snapshot(false, false, false, false, false, false))
    }
}

/// The built-in repertoire.
pub open spec fn default_characters() -> Seq<EntryView> {
    Seq::new(DEFAULT_REPERTOIRE_LEN as nat, |i: int| (seq![default_entry(i).0], default_entry(i).1))
}

/// The end-of-message snapshot of the built-in encoding.
pub open spec fn default_end() -> ShutterPositions {
    snapshot(true, true, false, false, true, true)
}

spec fn key_slot(c: char) -> int {
    if c == 'A' {
        0
    } else if c == 'B' {
        1
    } else if c == 'C' {
        2
    } else if c == 'D' {
        3
    } else if c == 'E' {
        4
    } else if c == 'F' {
        5
    } else if c == 'G' {
        6
    } else if c == 'H' {
        7
    } else if c == 'I' {
        8
    } else if c == 'J' {
        9
    } else if c == 'K' {
        10
    } else if c == 'L' {
        11
    } else if c == 'M' {
        12
    } else if c == 'N' {
        13
    } else if c == 'O' {
        14
    } else if c == 'P' {
        15
    } else if c == 'Q' {
        16
    } else if c == 'R' {
        17
    } else if c == 'S' {
        18
    } else if c == 'T' {
        19
    } else if c == 'U' {
        20
    } else if c == 'V' {
        21
    } else if c == 'W' {
        22
    } else if c == 'X' {
        23
    } else if c == 'Y' {
        24
    } else if c == 'Z' {
        25
    } else if c == ' ' {
        26
    } else if c == '1' {
        27
    } else if c == '2' {
        28
    } else if c == '3' {
        29
    } else if c == '4' {
        30
    } else if c == '5' {
        31
    } else if c == '6' {
        32
    } else if c == '7' {
        33
    } else if c == '8' {
        34
    } else if c == '9' {
        35
    } else if c == '0' {
        36
    } else {
        -1
    }
}

spec fn code(p: ShutterPositions) -> int {
    (if p.top_left { 1int } else { 0 }) + (if p.top_right { 2int } else { 0 }) + (if p.middle_left {
        4int
    } else {
        0
    }) + (if p.middle_right { 8int } else { 0 }) + (if p.bottom_left { 16int } else { 0 }) + (
    if p.bottom_right {
        32int
    } else {
        0
    })
}

spec fn code_slot(n: int) -> int {
    if n == 36 {
        0
    } else if n == 24 {
        1
    } else if n == 12 {
        2
    } else if n == 17 {
        3
    } else if n == 19 {
        4
    } else if n == 7 {
        5
    } else if n == 11 {
        6
    } else if n == 49 {
        7
    } else if n == 21 {
        8
    } else if n == 58 {
        9
    } else if n == 38 {
        10
    } else if n == 53 {
        11
    } else if n == 61 {
        12
    } else if n == 54 {
        13
    } else if n == 15 {
        14
    } else if n == 31 {
        15
    } else if n == 27 {
        16
    } else if n == 23 {
        17
    } else if n == 30 {
        18
    } else if n == 43 {
        19
    } else if n == 56 {
        20
    } else if n == 52 {
        21
    } else if n == 39 {
        22
    } else if n == 25 {
        23
    } else if n == 41 {
        24
    } else if n == 45 {
        25
    } else if n == 16 {
        26
    } else if n == 1 {
        27
    } else if n == 2 {
        28
    } else if n == 3 {
        29
    } else if n == 4 {
        30
    } else if n == 5 {
        31
    } else if n == 6 {
        32
    } else if n == 8 {
        33
    } else if n == 9 {
        34
    } else if n == 10 {
        35
    } else if n == 13 {
        36
    } else {
        -1
    }
}

spec fn default_entry_facts(i: int) -> bool {
    &&& key_slot(default_entry(i).0) == i
    &&& code_slot(code(default_entry(i).1)) == i
    &&& !default_entry(i).1.spec_all_closed()
}

/// The built-in repertoire and end snapshot form a valid encoding.
proof fn lemma_default_valid()
    ensures
        config_error(default_characters(), default_end()) is None,
{
    let e = default_characters();
    assert forall|i: int| 0 <= i < DEFAULT_REPERTOIRE_LEN implies #[trigger] default_entry_facts(i) by {
        if i == 0 {
        } else if i == 1 {
        } else if i == 2 {
        } else if i == 3 {
        } else if i == 4 {
        } else if i == 5 {
        } else if i == 6 {
        } else if i == 7 {
        } else if i == 8 {
        } else if i == 9 {
        } else if i == 10 {
        } else if i == 11 {
        } else if i == 12 {
        } else if i == 13 {
        } else if i == 14 {
        } else if i == 15 {
        } else if i == 16 {
        } else if i == 17 {
        } else if i == 18 {
        } else if i == 19 {
        } else if i == 20 {
        } else if i == 21 {
        } else if i == 22 {
        } else if i == 23 {
        } else if i == 24 {
        } else if i == 25 {
        } else if i == 26 {
        } else if i == 27 {
        } else if i == 28 {
        } else if i == 29 {
        } else if i == 30 {
        } else if i == 31 {
        } else if i == 32 {
        } else if i == 33 {
        } else if i == 34 {
        } else if i == 35 {
        } else if i == 36 {
        }
    }
    assert(code_slot(code(default_end())) == -1);
    assert forall|i: int| 0 <= i < e.len() implies !(#[trigger] e[i]).1.spec_all_closed() by {
        assert(default_entry_facts(i));
    }
    assert forall|i: int, j: int| 0 <= i < j < e.len() implies (#[trigger] e[i]).0 != (
    #[trigger] e[j]).0 by {
        assert(default_entry_facts(i));
        assert(default_entry_facts(j));
        if e[i].0 == e[j].0 {
            assert(e[i].0[0] == e[j].0[0]);
        }
    }
    assert forall|i: int, j: int| 0 <= i < j < e.len() implies (#[trigger] e[i]).1 != (
    #[trigger] e[j]).1 by {
        assert(default_entry_facts(i));
        assert(default_entry_facts(j));
    }
    assert forall|i: int| 0 <= i < e.len() implies (#[trigger] e[i]).1 != default_end() by {
        assert(default_entry_facts(i));
    }
}

fn positions(
    top_left: bool,
    top_right: bool,
    middle_left: bool,
    middle_right: bool,
    bottom_left: bool,
    bottom_right: bool,
) -> (r: ShutterPositions)
    ensures
        r == snapshot(top_left, top_right, middle_left, middle_right, bottom_left, bottom_right),
{
    ShutterPositions { top_left, top_right, middle_left, middle_right, bottom_left, bottom_right }
}

/// One entry of the built-in repertoire.
fn default_entry_at(i: usize) -> (r: (String, ShutterPositions))
    requires
        i < DEFAULT_REPERTOIRE_LEN,
    ensures
        r.0@ == seq![default_entry(i as int).0],
        r.1 == default_entry(i as int).1,
{
    let (key, p) = match i {
        0 => ("A", positions(false, false, true, false, false, true)),
        1 => ("B", positions(false, false, false, true, true, false)),
        2 => ("C", positions(false, false, true, true, false, false)),
        3 => ("D", positions(true, false, false, false, true, false)),
        4 => ("E", positions(true, true, false, false, true, false)),
        5 => ("F", positions(true, true, true, false, false, false)),
        6 => ("G", positions(true, true, false, true, false, false)),
        7 => ("H", positions(true, false, false, false, true, true)),
        8 => ("I", positions(true, false, true, false, true, false)),
        9 => ("J", positions(false, true, false, true, true, true)),
        10 => ("K", positions(false, true, true, false, false, true)),
        11 => ("L", positions(true, false, true, false, true, true)),
        12 => ("M", positions(true, false, true, true, true, true)),
        13 => ("N", positions(false, true, true, false, true, true)),
        14 => ("O", positions(true, true, true, true, false, false)),
        15 => ("P", positions(true, true, true, true, true, false)),
        16 => ("Q", positions(true, true, false, true, true, false)),
        17 => ("R", positions(true, true, true, false, true, false)),
        18 => ("S", positions(false, true, true, true, true, false)),
        19 => ("T", positions(true, true, false, true, false, true)),
        20 => ("U", positions(false, false, false, true, true, true)),
        21 => ("V", positions(false, false, true, false, true, true)),
        22 => ("W", positions(true, true, true, false, false, true)),
        23 => ("X", positions(true, false, false, true, true, false)),
        24 => ("Y", positions(true, false, false, true, false, true)),
        25 => ("Z", positions(true, false, true, true, false, true)),
        26 => (" ", positions(false, false, false, false, true, false)),
        27 => ("1", positions(true, false, false, false, false, false)),
        28 => ("2", positions(false, true, false, false, false, false)),
        29 => ("3", positions(true, true, false, false, false, false)),
        30 => ("4", positions(false, false, true, false, false, false)),
        31 => ("5", positions(true, false, true, false, false, false)),
        32 => ("6", positions(false, true, true, false, false, false)),
        33 => ("7", positions(false, false, false, true, false, false)),
        34 => ("8", positions(true, false, false, true, false, false)),
        35 => ("9", positions(false, true, false, true, false, false)),
        36 => ("0", positions(true, false, true, true, false, false)),
        _ => (" ", positions(false, false, false, false, false, false)),
    };
    proof {
        reveal_strlit(" ");
        reveal_strlit("0");
        reveal_strlit("1");
        reveal_strlit("2");
        reveal_strlit("3");
        reveal_strlit("4");
        reveal_strlit("5");
        reveal_strlit("6");
        reveal_strlit("7");
        reveal_strlit("8");
        reveal_strlit("9");
        reveal_strlit("A");
        reveal_strlit("B");
        reveal_strlit("C");
        reveal_strlit("D");
        reveal_strlit("E");
        reveal_strlit("F");
        reveal_strlit("G");
        reveal_strlit("H");
        reveal_strlit("I");
        reveal_strlit("J");
        reveal_strlit("K");
        reveal_strlit("L");
        reveal_strlit("M");
        reveal_strlit("N");
        reveal_strlit("O");
        reveal_strlit("P");
        reveal_strlit("Q");
        reveal_strlit("R");
        reveal_strlit("S");
        reveal_strlit("T");
        reveal_strlit("U");
        reveal_strlit("V");
        reveal_strlit("W");
        reveal_strlit("X");
        reveal_strlit("Y");
        reveal_strlit("Z");
    }
    (key.to_owned(), p)
}

impl Default for Encoding {
    /// The built-in encoding: letters, space and digits, with its own end
    /// marker.
    fn default() -> (r: Encoding)
        ensures
            r@ == (EncodingView { characters: default_characters(), end: default_end() }),
    {
        let mut characters: Vec<(String, ShutterPositions)> = Vec::new();
        let mut i: usize = 0;
        while i < DEFAULT_REPERTOIRE_LEN
            invariant
                i <= DEFAULT_REPERTOIRE_LEN,
                characters@.len() == i,
                entries_view(characters@) =~= default_characters().subrange(0, i as int),
            decreases DEFAULT_REPERTOIRE_LEN - i,
        {
            let entry = default_entry_at(i);
            let ghost before = characters@;
            characters.push(entry);
            proof {
                assert forall|k: int| 0 <= k < i implies entries_view(characters@)[k]
                    == entries_view(before)[k] by {
                    assert(characters@[k] == before[k]);
                }
            }
            i = i + 1;
        }
        let end = positions(true, true, false, false, true, true);
        proof {
            lemma_default_valid();
            assert(entries_view(characters@) =~= default_characters());
        }
        match Encoding::with_normalized_keys(characters, end) {
            Ok(encoding) => encoding,
            Err(_) => {
                proof {
                    assert(false);
                }
                Encoding { characters: Vec::new(), message_end: end }
            }
        }
    }
}

} // verus!
