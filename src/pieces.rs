use vstd::prelude::*;

verus! {

/// The suit of a clearing.
#[derive(Clone, Copy, Debug, PartialEq, Eq, Structural)]
pub enum Suit {
    Bird,
    Wolf,
    Rabbit,
    Mouse,
    Fox,
}

/// A playable side; `NoFaction` stands for no faction at all.
#[derive(Clone, Copy, Debug, PartialEq, Eq, Hash, Structural)]
pub enum Faction {
    Marquise,
    Eyrie,
    NoFaction,
}

/// A token kind that a clearing can hold.
#[derive(Clone, Copy, Debug, PartialEq, Eq, Hash, Structural)]
pub enum Token {
    Wood,
    Keep,
}

/// A building that occupies one build spot.
#[derive(Clone, Copy, Debug, PartialEq, Eq, Structural)]
pub enum Structure {
    Recruiter,
    Sawmill,
    Workshop,
    Roost,
}

/// The named board layouts.
#[derive(Clone, Copy, Debug, PartialEq, Eq, Structural)]
pub enum MapType {
    Simple,
    V,
    Fall,
}

/// Why a query or command on a map was refused.
#[derive(Clone, Copy, Debug, PartialEq, Eq, Structural)]
pub enum MapError {
    /// The clearing identifier does not exist in this map.
    NotFound,
    /// The target location is not allowed for this placement.
    IllegalPlacement,
    /// Something that happens at most once was attempted again.
    AlreadyPlaced,
    /// The clearing has no free build spot.
    CapacityExceeded,
    /// The operation depends on setup that has not happened yet.
    PreconditionViolation,
    /// A count would leave the range of a tally.
    InvalidArgument,
}

/// The contents of a clearing, as mathematical values.
pub struct ClearingView {
    pub suit: Suit,
    pub structures: Seq<Structure>,
    pub build_spots: nat,
    pub marquise: nat,
    pub eyrie: nat,
    pub unaligned: nat,
    pub wood: nat,
    pub keep: nat,
    pub corner: bool,
    pub rule: Faction,
}

impl ClearingView {
    /// A fresh clearing: nothing built, no warriors, no tokens.
    pub open spec fn fresh(suit: Suit, build_spots: nat, corner: bool) -> ClearingView {
        ClearingView {
            suit,
            structures: Seq::empty(),
            build_spots,
            marquise: 0,
            eyrie: 0,
            unaligned: 0,
            wood: 0,
            keep: 0,
            corner,
            rule: Faction::NoFaction,
        }
    }

    pub open spec fn warriors(self, f: Faction) -> nat {
        match f {
            Faction::Marquise => self.marquise,
            Faction::Eyrie => self.eyrie,
            Faction::NoFaction => self.unaligned,
        }
    }

    pub open spec fn tokens(self, t: Token) -> nat {
        match t {
            Token::Wood => self.wood,
            Token::Keep => self.keep,
        }
    }

    pub open spec fn buildable(self) -> bool {
        self.structures.len() < self.build_spots
    }

    /// Capacity holds and every tally fits in a byte.
    pub open spec fn wf(self) -> bool {
        &&& self.structures.len() <= self.build_spots
        &&& self.build_spots <= u8::MAX
        &&& self.marquise <= u8::MAX
        &&& self.eyrie <= u8::MAX
        &&& self.unaligned <= u8::MAX
        &&& self.wood <= u8::MAX
        &&& self.keep <= u8::MAX
    }

    /// This clearing with `n` more warriors of faction `f`.
    pub open spec fn add_warriors(self, f: Faction, n: nat) -> ClearingView {
        match f {
            Faction::Marquise => ClearingView { marquise: self.marquise + n, ..self },
            Faction::Eyrie => ClearingView { eyrie: self.eyrie + n, ..self },
            Faction::NoFaction => ClearingView { unaligned: self.unaligned + n, ..self },
        }
    }

    /// This clearing with `s` appended to its structures.
    pub open spec fn add_structure(self, s: Structure) -> ClearingView {
        ClearingView { structures: self.structures.push(s), ..self }
    }

    /// This clearing holding exactly one Keep token.
    pub open spec fn with_keep(self) -> ClearingView {
        ClearingView { keep: 1, ..self }
    }
}

/// A region of the board: its suit, capacity, buildings, warriors and tokens.
pub struct Clearing {
    pub suit: Suit,
    pub structures: Vec<Structure>,
    pub build_spots: u8,
    pub marquise: u8,
    pub eyrie: u8,
    pub unaligned: u8,
    pub wood: u8,
    pub keep: u8,
    pub corner: bool,
    pub rule: Faction,
}

impl View for Clearing {
    type V = ClearingView;

    open spec fn view(&self) -> ClearingView {
        ClearingView {
            suit: self.suit,
            structures: self.structures@,
            build_spots: self.build_spots as nat,
            marquise: self.marquise as nat,
            eyrie: self.eyrie as nat,
            unaligned: self.unaligned as nat,
            wood: self.wood as nat,
            keep: self.keep as nat,
            corner: self.corner,
            rule: self.rule,
        }
    }
}

impl Clearing {
    /// An empty clearing of the given suit and capacity.
    pub(crate) fn new(suit: Suit, build_spots: u8, corner: bool) -> (r: Clearing)
        ensures
            r@ == ClearingView::fresh(suit, build_spots as nat, corner),
    {
        Clearing {
            suit,
            structures: Vec::with_capacity(build_spots as usize),
            build_spots,
            marquise: 0,
            eyrie: 0,
            unaligned: 0,
            wood: 0,
            keep: 0,
            corner,
            rule: Faction::NoFaction,
        }
    }

    /// Whether a structure can still be built here.
    pub fn buildable(&self) -> (r: bool)
        ensures
            r == self@.buildable(),
    {
        (self.build_spots as usize) > self.structures.len()
    }

    /// How many warriors of faction `f` stand here.
    pub fn warriors(&self, f: Faction) -> (r: u8)
        ensures
            r as nat == self@.warriors(f),
    {
        match f {
            Faction::Marquise => self.marquise,
            Faction::Eyrie => self.eyrie,
            Faction::NoFaction => self.unaligned,
        }
    }

    /// How many tokens of kind `t` lie here.
    pub fn tokens(&self, t: Token) -> (r: u8)
        ensures
            r as nat == self@.tokens(t),
    {
        match t {
            Token::Wood => self.wood,
            Token::Keep => self.keep,
        }
    }

    /// Adds `n` warriors of faction `f` when the tally stays within a byte.
    pub(crate) fn add_warriors(&mut self, f: Faction, n: u8) -> (ok: bool)
        ensures
            ok == (old(self)@.warriors(f) + n <= u8::MAX),
            ok ==> final(self)@ == old(self)@.add_warriors(f, n as nat),
            !ok ==> final(self)@ == old(self)@,
    {
        match f {
            Faction::Marquise => {
                if self.marquise > u8::MAX - n {
                    return false;
                }
                self.marquise = self.marquise + n;
            },
            Faction::Eyrie => {
                if self.eyrie > u8::MAX - n {
                    return false;
                }
                self.eyrie = self.eyrie + n;
            },
            Faction::NoFaction => {
                if self.unaligned > u8::MAX - n {
                    return false;
                }
                self.unaligned = self.unaligned + n;
            },
        }
        true
    }

    /// Records a single Keep token here.
    pub(crate) fn set_keep(&mut self)
        ensures
            final(self)@ == old(self)@.with_keep(),
    {
        self.keep = 1;
    }

    /// Appends a structure; the caller has checked that a spot is free.
    pub(crate) fn push_structure(&mut self, s: Structure)
        requires
            old(self)@.buildable(),
        ensures
            final(self)@ == old(self)@.add_structure(s),
    {
        self.structures.push(s);
    }
}

} // verus!
