use crate::errors::Error;
use vstd::prelude::*;

verus! {

/// Whether a single shutter is open or closed.
#[derive(Debug, Clone, Copy, PartialEq, Eq, Structural)]
pub enum ShutterPosition {
    Open,
    Closed,
}

/// The column a shutter stands in.
#[derive(Debug, Clone, Copy, PartialEq, Eq, Structural)]
pub enum ShutterLocationSide {
    Left,
    Right,
}

/// One of the six fixed shutter locations.
#[derive(Debug, Clone, Copy, PartialEq, Eq, Structural, PartialOrd, Ord, Hash)]
pub enum ShutterLocation {
    TopLeft,
    TopRight,
    MiddleLeft,
    MiddleRight,
    BottomLeft,
    BottomRight,
}

/// The six locations, top to bottom and left to right.
pub open spec fn all_locations() -> Seq<ShutterLocation> {
    seq![
        ShutterLocation::TopLeft,
        ShutterLocation::TopRight,
        ShutterLocation::MiddleLeft,
        ShutterLocation::MiddleRight,
        ShutterLocation::BottomLeft,
        ShutterLocation::BottomRight,
    ]
}

impl ShutterLocation {
    /// Position of the location in `all_locations()`.
    pub open spec fn index(self) -> nat {
        match self {
            ShutterLocation::TopLeft => 0,
            ShutterLocation::TopRight => 1,
            ShutterLocation::MiddleLeft => 2,
            ShutterLocation::MiddleRight => 3,
            ShutterLocation::BottomLeft => 4,
            ShutterLocation::BottomRight => 5,
        }
    }

    pub open spec fn spec_side(self) -> ShutterLocationSide {
        if self.index() % 2 == 0 {
            ShutterLocationSide::Left
        } else {
            ShutterLocationSide::Right
        }
    }

    pub fn side(&self) -> (r: ShutterLocationSide)
        ensures
            r == self.spec_side(),
    {
        match self {
            ShutterLocation::TopLeft => ShutterLocationSide::Left,
            ShutterLocation::TopRight => ShutterLocationSide::Right,
            ShutterLocation::MiddleLeft => ShutterLocationSide::Left,
            ShutterLocation::MiddleRight => ShutterLocationSide::Right,
            ShutterLocation::BottomLeft => ShutterLocationSide::Left,
            ShutterLocation::BottomRight => ShutterLocationSide::Right,
        }
    }

    /// All six locations, in the order of `all_locations()`.
    pub fn iter() -> (r: Vec<ShutterLocation>)
        ensures
            r@ == all_locations(),
    {
        let r = vec![
            ShutterLocation::TopLeft,
            ShutterLocation::TopRight,
            ShutterLocation::MiddleLeft,
            ShutterLocation::MiddleRight,
            ShutterLocation::BottomLeft,
            ShutterLocation::BottomRight,
        ];
        assert(r@ =~= all_locations());
        r
    }
}

/// A snapshot: which of the six shutters are open.
#[derive(Debug, Clone, Copy, PartialEq, Eq, Structural, Hash)]
pub struct ShutterPositions {
    pub top_left: bool,
    pub top_right: bool,
    pub middle_left: bool,
    pub middle_right: bool,
    pub bottom_left: bool,
    pub bottom_right: bool,
}

impl View for ShutterPositions {
    type V = Set<ShutterLocation>;

    /// The set of open locations.
    open spec fn view(&self) -> Set<ShutterLocation> {
        Set::new(|l: ShutterLocation| self.is_open(l))
    }
}

impl ShutterPositions {
    pub open spec fn is_open(self, location: ShutterLocation) -> bool {
        match location {
            ShutterLocation::TopLeft => self.top_left,
            ShutterLocation::TopRight => self.top_right,
            ShutterLocation::MiddleLeft => self.middle_left,
            ShutterLocation::MiddleRight => self.middle_right,
            ShutterLocation::BottomLeft => self.bottom_left,
            ShutterLocation::BottomRight => self.bottom_right,
        }
    }

    /// Two snapshots with the same open locations are the same snapshot.
    pub proof fn lemma_view_injective(a: ShutterPositions, b: ShutterPositions)
        ensures
            (a@ == b@) == (a == b),
    {
        if a@ == b@ {
            assert(a.is_open(ShutterLocation::TopLeft) == b@.contains(ShutterLocation::TopLeft));
            assert(a.is_open(ShutterLocation::TopRight) == b@.contains(ShutterLocation::TopRight));
            assert(a.is_open(ShutterLocation::MiddleLeft) == b@.contains(
                ShutterLocation::MiddleLeft,
            ));
            assert(a.is_open(ShutterLocation::MiddleRight) == b@.contains(
                ShutterLocation::MiddleRight,
            ));
            assert(a.is_open(ShutterLocation::BottomLeft) == b@.contains(
                ShutterLocation::BottomLeft,
            ));
            assert(a.is_open(ShutterLocation::BottomRight) == b@.contains(
                ShutterLocation::BottomRight,
            ));
        }
    }

    fn open_location(self, location: ShutterLocation) -> (r: ShutterPositions)
        ensures
            forall|l: ShutterLocation| #[trigger]
                r.is_open(l) == (self.is_open(l) || l == location),
    {
        let mut r = self;
        match location {
            ShutterLocation::TopLeft => r.top_left = true,
            ShutterLocation::TopRight => r.top_right = true,
            ShutterLocation::MiddleLeft => r.middle_left = true,
            ShutterLocation::MiddleRight => r.middle_right = true,
            ShutterLocation::BottomLeft => r.bottom_left = true,
            ShutterLocation::BottomRight => r.bottom_right = true,
        }
        r
    }

    /// The snapshot with exactly the given locations open; a location named
    /// twice is refused.
    pub fn new(open_shutters: &[ShutterLocation]) -> (r: Result<ShutterPositions, Error>)
        ensures
            match r {
                Ok(p) => open_shutters@.no_duplicates() && p@ == open_shutters@.to_set(),
                Err(e) => !open_shutters@.no_duplicates() && e == Error::DuplicateShutterLocation,
            },
    {
        let mut p = ShutterPositions::new_with_all_closed();
        let mut i: usize = 0;
        while i < open_shutters.len()
            invariant
                i <= open_shutters@.len(),
                open_shutters@.subrange(0, i as int).no_duplicates(),
                forall|l: ShutterLocation| #[trigger]
                    p.is_open(l) == open_shutters@.subrange(0, i as int).contains(l),
            decreases open_shutters@.len() - i,
        {
            let location = open_shutters[i];
            let ghost prefix = open_shutters@.subrange(0, i as int);
            if p.get_position(&location) == ShutterPosition::Open {
                proof {
                    let k = choose|k: int| 0 <= k < prefix.len() && prefix[k] == location;
                    assert(open_shutters@[k] == open_shutters@[i as int]);
                }
                return Err(Error::DuplicateShutterLocation);
            }
            p = p.open_location(location);
            proof {
                let next = open_shutters@.subrange(0, i + 1);
                assert(next =~= prefix.push(location));
                assert forall|l: ShutterLocation| #[trigger]
                    p.is_open(l) == next.contains(l) by {
                    if l == location {
                        assert(next[i as int] == l);
                    }
                    if next.contains(l) && l != location {
                        let k = choose|k: int| 0 <= k < next.len() && next[k] == l;
                        assert(prefix[k] == l);
                    }
                    if prefix.contains(l) {
                        let k = choose|k: int| 0 <= k < prefix.len() && prefix[k] == l;
                        assert(next[k] == l);
                    }
                }
                assert forall|a: int, b: int|
                    0 <= a < next.len() && 0 <= b < next.len() && a != b implies next[a]
                    != next[b] by {
                    if a < i && b < i {
                        assert(prefix[a] != prefix[b]);
                    } else if a == i {
                        assert(prefix.contains(next[b]) || b == i);
                    } else {
                        assert(prefix.contains(next[a]));
                    }
                }
            }
            i = i + 1;
        }
        proof {
            assert(open_shutters@.subrange(0, i as int) =~= open_shutters@);
            assert(p@ =~= open_shutters@.to_set());
        }
        Ok(p)
    }

    pub fn new_with_all_open() -> (r: ShutterPositions)
        ensures
            forall|l: ShutterLocation| #[trigger] r@.contains(l),
    {
        ShutterPositions {
            top_left: true,
            top_right: true,
            middle_left: true,
            middle_right: true,
            bottom_left: true,
            bottom_right: true,
        }
    }

    /// The snapshot with every shutter closed.
    pub open spec fn closed() -> ShutterPositions {
        ShutterPositions {
            top_left: false,
            top_right: false,
            middle_left: false,
            middle_right: false,
            bottom_left: false,
            bottom_right: false,
        }
    }

    pub fn new_with_all_closed() -> (r: ShutterPositions)
        ensures
            r == ShutterPositions::closed(),
            r@ == Set::<ShutterLocation>::empty(),
            forall|l: ShutterLocation| !#[trigger] r.is_open(l),
    {
        let r = ShutterPositions {
            top_left: false,
            top_right: false,
            middle_left: false,
            middle_right: false,
            bottom_left: false,
            bottom_right: false,
        };
        assert(r@ =~= Set::<ShutterLocation>::empty());
        r
    }

    pub open spec fn spec_all_closed(self) -> bool {
        !(self.top_left || self.top_right || self.middle_left || self.middle_right
            || self.bottom_left || self.bottom_right)
    }

    /// A snapshot is all closed exactly when no location is open.
    pub proof fn lemma_all_closed_view(self)
        ensures
            self.spec_all_closed() == (self@ == Set::<ShutterLocation>::empty()),
    {
        if self.spec_all_closed() {
            assert(self@ =~= Set::<ShutterLocation>::empty());
        } else if self.top_left {
            assert(self@.contains(ShutterLocation::TopLeft));
        } else if self.top_right {
            assert(self@.contains(ShutterLocation::TopRight));
        } else if self.middle_left {
            assert(self@.contains(ShutterLocation::MiddleLeft));
        } else if self.middle_right {
            assert(self@.contains(ShutterLocation::MiddleRight));
        } else if self.bottom_left {
            assert(self@.contains(ShutterLocation::BottomLeft));
        } else {
            assert(self@.contains(ShutterLocation::BottomRight));
        }
    }

    pub fn all_closed(&self) -> (r: bool)
        ensures
            r == self.spec_all_closed(),
            r == (self@ == Set::<ShutterLocation>::empty()),
    {
        proof {
            self.lemma_all_closed_view();
        }
        !(self.top_left || self.top_right || self.middle_left || self.middle_right
            || self.bottom_left || self.bottom_right)
    }

    /// The open locations, each once, in the order of `all_locations()`.
    pub fn open_shutters(&self) -> (r: Vec<ShutterLocation>)
        ensures
            r@.to_set() == self@,
            forall|i: int, j: int| 0 <= i < j < r@.len() ==> r@[i].index() < r@[j].index(),
    {
        let all = ShutterLocation::iter();
        let mut r: Vec<ShutterLocation> = Vec::new();
        let mut i: usize = 0;
        while i < all.len()
            invariant
                all@ == all_locations(),
                i <= 6,
                forall|l: ShutterLocation| #[trigger]
                    r@.contains(l) == (self.is_open(l) && l.index() < i),
                forall|a: int| 0 <= a < r@.len() ==> r@[a].index() < i,
                forall|a: int, b: int| 0 <= a < b < r@.len() ==> r@[a].index() < r@[b].index(),
            decreases 6 - i,
        {
            let location = all[i];
            assert(location.index() == i);
            if self.get_position(&location) == ShutterPosition::Open {
                let ghost old_r = r@;
                r.push(location);
                proof {
                    assert forall|l: ShutterLocation| #[trigger]
                        r@.contains(l) == (self.is_open(l) && l.index() < i + 1) by {
                        if r@.contains(l) && l != location {
                            let k = choose|k: int| 0 <= k < r@.len() && r@[k] == l;
                            assert(old_r[k] == l);
                            assert(old_r.contains(l));
                        }
                        if self.is_open(l) && l.index() < i + 1 && l != location {
                            assert(old_r.contains(l));
                            let k = choose|k: int| 0 <= k < old_r.len() && old_r[k] == l;
                            assert(r@[k] == l);
                        }
                        if l.index() == i {
                            assert(l == location);
                        }
                        if l == location {
                            assert(self@.contains(location));
                            assert(r@[r@.len() - 1] == l);
                        }
                    }
                }
            } else {
                proof {
                    assert forall|l: ShutterLocation| #[trigger]
                        r@.contains(l) == (self.is_open(l) && l.index() < i + 1) by {
                        if l.index() == i {
                            assert(l == location);
                            assert(!self@.contains(l));
                        }
                    }
                }
            }
            i = i + 1;
        }
        assert(r@.to_set() =~= self@);
        r
    }

    pub fn get_position(&self, location: &ShutterLocation) -> (r: ShutterPosition)
        ensures
            (r == ShutterPosition::Open) == self@.contains(*location),
    {
        let open = match location {
            ShutterLocation::TopLeft => self.top_left,
            ShutterLocation::TopRight => self.top_right,
            ShutterLocation::MiddleLeft => self.middle_left,
            ShutterLocation::MiddleRight => self.middle_right,
            ShutterLocation::BottomLeft => self.bottom_left,
            ShutterLocation::BottomRight => self.bottom_right,
        };
        if open {
            ShutterPosition::Open
        } else {
            ShutterPosition::Closed
        }
    }
}

} // verus!
