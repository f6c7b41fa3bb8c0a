//! The board: clearings on a fixed adjacency graph, the corner pairing, and the
//! setup-phase commands and queries of the two factions.
use crate::pieces::{Clearing, ClearingView, Faction, MapError, Structure, Suit};
use crate::topology::{
    add_node, edge_seq, empty_graph, extend_with_edges, graph_edges, graph_node_count, joined,
    neighbors, node_ids,
};
use petgraph::graph::Graph;
use petgraph::Undirected;
use std::collections::HashMap;
use vstd::prelude::*;

verus! {

broadcast use vstd::std_specs::hash::group_hash_axioms;

/// How many warriors the Eyrie places at its starting corner.
pub const EYRIE_START_WARRIORS: u8 = 6;

/// A board as mathematical values.
pub struct BoardView {
    pub clearings: Seq<ClearingView>,
    pub edges: Seq<(nat, nat)>,
    pub corners: Map<usize, usize>,
    pub keep: Option<usize>,
}

impl BoardView {
    pub open spec fn has(self, x: int) -> bool {
        0 <= x < self.clearings.len()
    }

    /// Each corner names a distinct corner clearing that names it back.
    pub open spec fn corners_paired(self) -> bool {
        forall|a: usize| #[trigger]
            self.corners.contains_key(a) ==> {
                let b = self.corners[a];
                &&& self.corners.contains_key(b)
                &&& self.corners[b] == a
                &&& a != b
                &&& self.has(a as int)
                &&& self.clearings[a as int].corner
            }
    }

    /// The Keep, once placed, is one token on a corner, and there is no other.
    pub open spec fn keep_recorded(self) -> bool {
        match self.keep {
            Some(k) => {
                &&& self.corners.contains_key(k)
                &&& forall|j: int|
                    self.has(j) ==> #[trigger] self.clearings[j].keep == if j == k {
                        1nat
                    } else {
                        0nat
                    }
            },
            None => forall|j: int| self.has(j) ==> #[trigger] self.clearings[j].keep == 0,
        }
    }

    pub open spec fn wf(self) -> bool {
        &&& self.clearings.len() < u8::MAX
        &&& forall|j: int| self.has(j) ==> #[trigger] self.clearings[j].wf()
        &&& forall|i: int|
            0 <= i < self.edges.len() ==> (#[trigger] self.edges[i]).0 < self.clearings.len()
                && self.edges[i].1 < self.clearings.len()
        &&& self.corners_paired()
        &&& self.keep_recorded()
    }

    /// How many Keep tokens lie on the clearings from `n` on.
    pub open spec fn keep_tokens_from(self, n: int) -> nat
        decreases self.clearings.len() - n,
    {
        if n < 0 || n >= self.clearings.len() {
            0
        } else {
            self.clearings[n].keep + self.keep_tokens_from(n + 1)
        }
    }

    /// How many Keep tokens lie on the whole board.
    pub open spec fn keep_tokens(self) -> nat {
        self.keep_tokens_from(0)
    }

    /// What `place_keep(c)` answers.
    pub open spec fn keep_outcome(self, c: usize) -> Result<(), MapError> {
        if !self.corners.contains_key(c) {
            Err(MapError::IllegalPlacement)
        } else if self.keep is Some {
            Err(MapError::AlreadyPlaced)
        } else if exists|j: int|
            self.has(j) && j != self.corners[c] && #[trigger] self.clearings[j].marquise
                >= u8::MAX {
            Err(MapError::InvalidArgument)
        } else {
            Ok(())
        }
    }

    /// The board after a successful `place_keep(c)`: the Keep on `c`, and one
    /// Marquise warrior on every clearing but the corner opposite `c`.
    pub open spec fn after_keep(self, c: usize) -> BoardView {
        BoardView {
            clearings: Seq::new(
                self.clearings.len(),
                |j: int|
                    {
                        let base = if j == c {
                            self.clearings[j].with_keep()
                        } else {
                            self.clearings[j]
                        };
                        if j == self.corners[c] {
                            base
                        } else {
                            base.add_warriors(Faction::Marquise, 1)
                        }
                    },
            ),
            keep: Some(c),
            ..self
        }
    }

    /// What `place_structure(id, s)` answers.
    pub open spec fn structure_outcome(self, id: usize) -> Result<(), MapError> {
        if !self.has(id as int) {
            Err(MapError::NotFound)
        } else if !self.clearings[id as int].buildable() {
            Err(MapError::CapacityExceeded)
        } else {
            Ok(())
        }
    }

    /// The board with `s` appended to the structures of clearing `id`.
    pub open spec fn after_structure(self, id: usize, s: Structure) -> BoardView {
        BoardView {
            clearings: self.clearings.update(id as int, self.clearings[id as int].add_structure(s)),
            ..self
        }
    }

    /// What `place_warrior(id, f, n)` answers.
    pub open spec fn warrior_outcome(self, id: usize, f: Faction, n: nat) -> Result<(), MapError> {
        if !self.has(id as int) {
            Err(MapError::NotFound)
        } else if self.clearings[id as int].warriors(f) + n > u8::MAX {
            Err(MapError::InvalidArgument)
        } else {
            Ok(())
        }
    }

    /// The board with `n` more warriors of `f` on clearing `id`.
    pub open spec fn after_warriors(self, id: usize, f: Faction, n: nat) -> BoardView {
        BoardView {
            clearings: self.clearings.update(id as int, self.clearings[id as int].add_warriors(f, n)),
            ..self
        }
    }

    /// What `setup_eyrie(c)` answers.
    pub open spec fn eyrie_outcome(self, c: usize) -> Result<(), MapError> {
        if !self.corners.contains_key(c) {
            Err(MapError::IllegalPlacement)
        } else if self.keep is None {
            Err(MapError::PreconditionViolation)
        } else if self.clearings[c as int].keep > 0 {
            Err(MapError::AlreadyPlaced)
        } else if !self.clearings[c as int].buildable() {
            Err(MapError::CapacityExceeded)
        } else if self.clearings[c as int].eyrie + EYRIE_START_WARRIORS > u8::MAX {
            Err(MapError::InvalidArgument)
        } else {
            Ok(())
        }
    }

    /// The board after a successful `setup_eyrie(c)`: a Roost and the Eyrie's
    /// starting warriors on `c`.
    pub open spec fn after_eyrie(self, c: usize) -> BoardView {
        self.after_structure(c, Structure::Roost).after_warriors(
            c,
            Faction::Eyrie,
            EYRIE_START_WARRIORS as nat,
        )
    }

    /// Replacing one clearing by a well-formed one with the same corner flag
    /// and the same Keep tokens keeps the board well formed.
    pub proof fn lemma_update_wf(self, id: int, c: ClearingView)
        requires
            self.wf(),
            self.has(id),
            c.wf(),
            c.corner == self.clearings[id].corner,
            c.keep == self.clearings[id].keep,
        ensures
            (BoardView { clearings: self.clearings.update(id, c), ..self }).wf(),
    {
        let v = BoardView { clearings: self.clearings.update(id, c), ..self };
        assert forall|j: int| v.has(j) implies #[trigger] v.clearings[j].wf() by {
            if j != id {
                assert(self.clearings[j].wf());
            }
        }
        assert forall|a: usize| #[trigger] v.corners.contains_key(a) implies v.clearings[a as int].corner by {
            assert(self.corners.contains_key(a));
        }
        match v.keep {
            Some(k) => {
                assert forall|j: int| v.has(j) implies #[trigger] v.clearings[j].keep == if j == k {
                    1nat
                } else {
                    0nat
                } by {
                    assert(self.has(j));
                }
            },
            None => {
                assert forall|j: int| v.has(j) implies #[trigger] v.clearings[j].keep == 0 by {
                    assert(self.has(j));
                }
            },
        }
    }

    /// A successful `place_keep(c)` leaves the board well formed.
    pub proof fn lemma_after_keep_wf(self, c: usize)
        requires
            self.wf(),
            self.keep_outcome(c) is Ok,
        ensures
            self.after_keep(c).wf(),
    {
        let v = self.after_keep(c);
        let opp = self.corners[c];
        assert forall|j: int| v.has(j) implies #[trigger] v.clearings[j].wf() by {
            assert(self.clearings[j].wf());
            if j != opp {
                assert(!(self.has(j) && j != opp && self.clearings[j].marquise >= u8::MAX));
            }
        }
        assert forall|a: usize| #[trigger] v.corners.contains_key(a) implies v.clearings[a as int].corner by {
            assert(self.corners.contains_key(a));
        }
        assert forall|j: int| v.has(j) implies #[trigger] v.clearings[j].keep == if j == c {
            1nat
        } else {
            0nat
        } by {
            assert(self.clearings[j].keep == 0);
        }
    }

    /// Whether `x` is a legal place for one of the Marquise's starting buildings:
    /// the Keep's clearing or one next to it, with a free build spot.
    pub open spec fn marquise_option(self, x: usize) -> bool {
        match self.keep {
            Some(k) => {
                &&& (x == k || joined(self.edges, k as nat, x as nat))
                &&& self.has(x as int)
                &&& self.clearings[x as int].buildable()
            },
            None => false,
        }
    }

    /// Whether the Eyrie may start at `x`: a corner without the Keep.
    pub open spec fn eyrie_option(self, x: usize) -> bool {
        &&& self.corners.contains_key(x)
        &&& self.clearings[x as int].keep == 0
    }
}

/// A corner clearing together with its diagonal opposite.
pub struct Corner {
    pub corner: usize,
    pub opposite: usize,
}

/// A board: clearings on a fixed adjacency graph, the corner pairing, and
/// where the Keep stands.
pub struct Board {
    graph: Graph<(), (), Undirected, u8>,
    clearings: Vec<Clearing>,
    corners: HashMap<usize, usize>,
    keep: Option<usize>,
}

impl View for Board {
    type V = BoardView;

    closed spec fn view(&self) -> BoardView {
        BoardView {
            clearings: self.clearings@.map_values(|c: Clearing| c@),
            edges: graph_edges(self.graph),
            corners: self.corners@,
            keep: self.keep,
        }
    }
}

impl Board {
    /// The board's own invariant; its view is then well formed.
    pub closed spec fn wf(&self) -> bool {
        &&& self@.wf()
        &&& graph_node_count(self.graph) == self.clearings@.len()
    }

    /// A well-formed board has a well-formed view.
    pub proof fn lemma_wf_view(&self)
        requires
            self.wf(),
        ensures
            self@.wf(),
    {
    }

    /// A board with no clearings.
    pub(crate) fn empty() -> (r: Board)
        ensures
            r.wf(),
            r@.clearings == Seq::<ClearingView>::empty(),
            r@.edges == Seq::<(nat, nat)>::empty(),
            r@.corners == Map::<usize, usize>::empty(),
            r@.keep is None,
    {
        let r = Board {
            graph: empty_graph(),
            clearings: Vec::new(),
            corners: HashMap::new(),
            keep: None,
        };
        assert(r@.clearings =~= Seq::<ClearingView>::empty());
        r
    }

    /// Adds a fresh clearing and returns its identifier.
    pub(crate) fn add_clearing(&mut self, suit: Suit, build_spots: u8, corner: bool) -> (r: usize)
        requires
            old(self).wf(),
            old(self)@.clearings.len() + 1 < u8::MAX,
        ensures
            final(self).wf(),
            r == old(self)@.clearings.len(),
            final(self)@ == (BoardView {
                clearings: old(self)@.clearings.push(
                    ClearingView::fresh(suit, build_spots as nat, corner),
                ),
                ..old(self)@
            }),
    {
        let r = add_node(&mut self.graph);
        self.clearings.push(Clearing::new(suit, build_spots, corner));
        assert(self@.clearings =~= old(self)@.clearings.push(
            ClearingView::fresh(suit, build_spots as nat, corner),
        ));
        r
    }

    /// Adds an edge for each pair of existing clearings.
    pub(crate) fn extend_with_paths(&mut self, pairs: &Vec<(u8, u8)>)
        requires
            old(self).wf(),
            forall|i: int|
                0 <= i < pairs@.len() ==> (pairs@[i].0 as int) < old(self)@.clearings.len() && (
                pairs@[i].1 as int) < old(self)@.clearings.len(),
            old(self)@.edges.len() + pairs@.len() < u8::MAX,
        ensures
            final(self).wf(),
            final(self)@ == (BoardView { edges: old(self)@.edges + edge_seq(pairs@), ..old(self)@ }),
    {
        extend_with_edges(&mut self.graph, pairs);
        proof {
            let e = self@.edges;
            let n = self@.clearings.len();
            assert forall|i: int| 0 <= i < e.len() implies (#[trigger] e[i]).0 < n && e[i].1 < n by {
                if i >= old(self)@.edges.len() {
                    let k = i - old(self)@.edges.len();
                    assert(e[i] == edge_seq(pairs@)[k]);
                }
            }
        }
    }

    /// The corner pairing: each corner mapped to its diagonal opposite.
    pub fn get_corners(&self) -> (r: &HashMap<usize, usize>)
        ensures
            r@ == self@.corners,
    {
        &self.corners
    }

    /// The clearing with identifier `index`.
    pub fn get_clearing(&self, index: usize) -> (r: Result<&Clearing, MapError>)
        ensures
            match r {
                Ok(c) => self@.has(index as int) && c@ == self@.clearings[index as int],
                Err(e) => !self@.has(index as int) && e == MapError::NotFound,
            },
    {
        if index < self.clearings.len() {
            Ok(&self.clearings[index])
        } else {
            Err(MapError::NotFound)
        }
    }

    /// The clearings that a path joins to clearing `index`.
    pub fn get_connected(&self, index: usize) -> (r: Result<Vec<usize>, MapError>)
        requires
            self.wf(),
        ensures
            match r {
                Ok(v) => self@.has(index as int) && forall|x: usize|
                    v@.contains(x) <==> joined(self@.edges, index as nat, x as nat),
                Err(e) => !self@.has(index as int) && e == MapError::NotFound,
            },
    {
        if index < self.clearings.len() {
            Ok(neighbors(&self.graph, index))
        } else {
            Err(MapError::NotFound)
        }
    }

    /// Every clearing identifier, in the order the clearings were created.
    pub fn get_clearings(&self) -> (r: Vec<usize>)
        requires
            self.wf(),
        ensures
            r@.len() == self@.clearings.len(),
            forall|i: int| 0 <= i < r@.len() ==> r@[i] == i,
    {
        node_ids(&self.graph)
    }

    /// Adds `amount` warriors of `warrior` to clearing `index`.
    pub fn place_warrior(&mut self, index: usize, warrior: Faction, amount: u8) -> (r: Result<
        (),
        MapError,
    >)
        requires
            old(self).wf(),
        ensures
            final(self).wf(),
            r == old(self)@.warrior_outcome(index, warrior, amount as nat),
            final(self)@ == if r is Ok {
                old(self)@.after_warriors(index, warrior, amount as nat)
            } else {
                old(self)@
            },
    {
        if index >= self.clearings.len() {
            return Err(MapError::NotFound);
        }
        let ok = self.clearings[index].add_warriors(warrior, amount);
        proof {
            let v = old(self)@.after_warriors(index, warrior, amount as nat);
            if ok {
                assert(self@.clearings =~= v.clearings);
                assert(old(self)@.clearings[index as int].wf());
                old(self)@.lemma_update_wf(index as int, v.clearings[index as int]);
            } else {
                assert(self@.clearings =~= old(self)@.clearings);
            }
        }
        if ok {
            Ok(())
        } else {
            Err(MapError::InvalidArgument)
        }
    }

    /// Appends `structure` to clearing `index` when a build spot is free.
    pub fn place_structure(&mut self, index: usize, structure: Structure) -> (r: Result<
        (),
        MapError,
    >)
        requires
            old(self).wf(),
        ensures
            final(self).wf(),
            r == old(self)@.structure_outcome(index),
            final(self)@ == if r is Ok {
                old(self)@.after_structure(index, structure)
            } else {
                old(self)@
            },
    {
        if index >= self.clearings.len() {
            return Err(MapError::NotFound);
        }
        if !self.clearings[index].buildable() {
            return Err(MapError::CapacityExceeded);
        }
        self.clearings[index].push_structure(structure);
        proof {
            let v = old(self)@.after_structure(index, structure);
            assert(self@.clearings =~= v.clearings);
            old(self)@.lemma_update_wf(index as int, v.clearings[index as int]);
        }
        Ok(())
    }

    /// Places the Keep on corner `index`, then one Marquise warrior on every
    /// clearing except the corner diagonally opposite `index`.
    pub fn place_keep(&mut self, index: usize) -> (r: Result<(), MapError>)
        requires
            old(self).wf(),
        ensures
            final(self).wf(),
            r == old(self)@.keep_outcome(index),
            final(self)@ == if r is Ok {
                old(self)@.after_keep(index)
            } else {
                old(self)@
            },
    {
        if !self.corners.contains_key(&index) {
            return Err(MapError::IllegalPlacement);
        }
        if self.keep.is_some() {
            return Err(MapError::AlreadyPlaced);
        }
        let opposite = *self.corners.get(&index).unwrap();
        let n = self.clearings.len();
        let mut j: usize = 0;
        while j < n
            invariant
                self@ == old(self)@,
                self.wf(),
                old(self)@.corners.contains_key(index),
                old(self)@.keep is None,
                n == self@.clearings.len(),
                opposite == self@.corners[index],
                forall|i: int|
                    0 <= i < j && i != opposite ==> #[trigger] self@.clearings[i].marquise
                        < u8::MAX,
            decreases n - j,
        {
            if j != opposite && self.clearings[j].marquise == u8::MAX {
                assert(self@.clearings[j as int] == self.clearings@[j as int]@);
                assert(old(self)@.has(j as int) && j != old(self)@.corners[index]
                    && old(self)@.clearings[j as int].marquise >= u8::MAX);
                assert(old(self)@.keep_outcome(index) == Err::<(), MapError>(MapError::InvalidArgument));
                return Err(MapError::InvalidArgument);
            }
            j += 1;
        }
        let ghost before = self@;
        let ghost target = before.after_keep(index).clearings;
        assert(before.has(index as int));
        self.clearings[index].set_keep();
        self.keep = Some(index);
        let ghost seeded = self@.clearings;
        assert forall|i: int| 0 <= i < n implies seeded[i] == if i == index {
            before.clearings[i].with_keep()
        } else {
            before.clearings[i]
        } by {}
        let mut j: usize = 0;
        while j < n
            invariant
                n == self.clearings@.len(),
                graph_node_count(self.graph) == n,
                self.graph == old(self).graph,
                self.corners == old(self).corners,
                self.keep == Some(index),
                opposite == before.corners[index],
                before == old(self)@,
                n == before.clearings.len(),
                before.keep_outcome(index) is Ok,
                target == before.after_keep(index).clearings,
                seeded.len() == n,
                forall|i: int|
                    0 <= i < n ==> #[trigger] self@.clearings[i] == if i < j {
                        target[i]
                    } else {
                        seeded[i]
                    },
                forall|i: int|
                    0 <= i < n ==> seeded[i] == if i == index {
                        before.clearings[i].with_keep()
                    } else {
                        before.clearings[i]
                    },
            decreases n - j,
        {
            let ghost prev = self.clearings@;
            let ghost prev_view = self@.clearings;
            assert(self@.clearings[j as int] == seeded[j as int]);
            assert(prev[j as int]@ == prev_view[j as int]);
            if j != opposite {
                assert(!(before.has(j as int) && j != opposite && before.clearings[j as int].marquise
                    >= u8::MAX));
                let _ = self.clearings[j].add_warriors(Faction::Marquise, 1);
            }
            proof {
                assert forall|i: int| 0 <= i < n implies #[trigger] self@.clearings[i] == if i < j
                    + 1 {
                    target[i]
                } else {
                    seeded[i]
                } by {
                    if i != j {
                        assert(self.clearings@[i] == prev[i]);
                        assert(prev[i]@ == prev_view[i]);
                    } else {
                        if i != opposite {
                            assert(self.clearings@[i]@ == prev[i]@.add_warriors(Faction::Marquise, 1));
                        } else {
                            assert(self.clearings@[i] == prev[i]);
                        }
                        let base = if i == index {
                            before.clearings[i].with_keep()
                        } else {
                            before.clearings[i]
                        };
                        assert(seeded[i] == base);
                        assert(target[i] == if i == opposite {
                            base
                        } else {
                            base.add_warriors(Faction::Marquise, 1)
                        });
                        assert(self@.clearings[i] == self.clearings@[i]@);
                    }
                }
            }
            j += 1;
        }
        proof {
            assert(self@.clearings =~= target);
            before.lemma_after_keep_wf(index);
        }
        Ok(())
    }

    /// Starts the Eyrie at `corner`: a Roost and its starting warriors there.
    pub fn setup_eyrie(&mut self, corner: usize) -> (r: Result<(), MapError>)
        requires
            old(self).wf(),
        ensures
            final(self).wf(),
            r == old(self)@.eyrie_outcome(corner),
            final(self)@ == if r is Ok {
                old(self)@.after_eyrie(corner)
            } else {
                old(self)@
            },
    {
        if !self.corners.contains_key(&corner) {
            return Err(MapError::IllegalPlacement);
        }
        if self.keep.is_none() {
            return Err(MapError::PreconditionViolation);
        }
        if self.clearings[corner].keep > 0 {
            return Err(MapError::AlreadyPlaced);
        }
        if !self.clearings[corner].buildable() {
            return Err(MapError::CapacityExceeded);
        }
        if self.clearings[corner].eyrie > u8::MAX - EYRIE_START_WARRIORS {
            return Err(MapError::InvalidArgument);
        }
        let _ = self.place_structure(corner, Structure::Roost);
        let _ = self.place_warrior(corner, Faction::Eyrie, EYRIE_START_WARRIORS);
        Ok(())
    }

    /// Where the Marquise may place a starting building: the Keep's clearing and
    /// its neighbours, those with a free build spot.
    pub fn get_marquise_start_building_options(&self) -> (r: Result<Vec<usize>, MapError>)
        requires
            self.wf(),
        ensures
            match r {
                Ok(v) => self@.keep is Some && forall|x: usize|
                    v@.contains(x) <==> self@.marquise_option(x),
                Err(e) => self@.keep is None && e == MapError::PreconditionViolation,
            },
    {
        let keep = match self.keep {
            Some(k) => k,
            None => return Err(MapError::PreconditionViolation),
        };
        let around = neighbors(&self.graph, keep);
        let mut options: Vec<usize> = Vec::new();
        let mut i: usize = 0;
        while i < around.len()
            invariant
                self.wf(),
                self@.keep == Some(keep),
                i <= around@.len(),
                forall|x: usize| around@.contains(x) <==> joined(self@.edges, keep as nat, x as nat),
                forall|x: usize|
                    options@.contains(x) <==> (exists|t: int| 0 <= t < i && around@[t] == x)
                        && self@.has(x as int) && self@.clearings[x as int].buildable(),
            decreases around.len() - i,
        {
            let x = around[i];
            proof {
                assert(around@.contains(x));
                let t = choose|t: int|
                    0 <= t < self@.edges.len() && (self@.edges[t] == (keep as nat, x as nat)
                        || self@.edges[t] == (x as nat, keep as nat));
                assert(self@.edges[t].0 < self@.clearings.len());
            }
            let ghost prev = options@;
            if self.clearings[x].buildable() {
                options.push(x);
            }
            proof {
                assert forall|y: usize|
                    options@.contains(y) <==> (exists|t: int| 0 <= t < i + 1 && around@[t] == y)
                        && self@.has(y as int) && self@.clearings[y as int].buildable() by {
                    if options@.contains(y) && y != x {
                        let k = choose|k: int| 0 <= k < options@.len() && options@[k] == y;
                        assert(prev[k] == y);
                        assert(prev.contains(y));
                    }
                    if (exists|t: int| 0 <= t < i + 1 && around@[t] == y) && self@.has(y as int)
                        && self@.clearings[y as int].buildable() {
                        if y == x {
                            assert(options@[options@.len() - 1] == y);
                        } else {
                            let t = choose|t: int| 0 <= t < i + 1 && around@[t] == y;
                            assert(t < i);
                            assert(prev.contains(y));
                            let k = choose|k: int| 0 <= k < prev.len() && prev[k] == y;
                            assert(options@[k] == y);
                        }
                    }
                }
            }
            i += 1;
        }
        let ghost prev = options@;
        if self.clearings[keep].buildable() {
            options.push(keep);
        }
        proof {
            assert forall|y: usize| options@.contains(y) <==> self@.marquise_option(y) by {
                if options@.contains(y) && y != keep {
                    let k = choose|k: int| 0 <= k < options@.len() && options@[k] == y;
                    assert(prev[k] == y);
                    assert(prev.contains(y));
                    assert(exists|t: int| 0 <= t < i && around@[t] == y);
                    let t = choose|t: int| 0 <= t < i && around@[t] == y;
                    assert(around@[t] == y);
                    assert(around@.contains(y));
                }
                if self@.marquise_option(y) {
                    if y == keep {
                        assert(options@[options@.len() - 1] == y);
                    } else {
                        assert(joined(self@.edges, keep as nat, y as nat));
                        assert(around@.contains(y));
                        let t = choose|t: int| 0 <= t < around@.len() && around@[t] == y;
                        assert(prev.contains(y));
                        let k = choose|k: int| 0 <= k < prev.len() && prev[k] == y;
                        assert(options@[k] == y);
                    }
                }
            }
        }
        Ok(options)
    }

    /// The corners where the Eyrie may start: those without the Keep, ascending.
    pub fn get_eyrie_start_options(&self) -> (r: Vec<usize>)
        requires
            self.wf(),
        ensures
            forall|x: usize| r@.contains(x) <==> self@.eyrie_option(x),
            forall|a: int, b: int| 0 <= a < b < r@.len() ==> r@[a] < r@[b],
    {
        let mut options: Vec<usize> = Vec::new();
        let mut j: usize = 0;
        while j < self.clearings.len()
            invariant
                self.wf(),
                forall|x: usize| options@.contains(x) <==> x < j && self@.eyrie_option(x),
                forall|a: int, b: int| 0 <= a < b < options@.len() ==> options@[a] < options@[b],
                forall|a: int| 0 <= a < options@.len() ==> options@[a] < j,
            decreases self.clearings@.len() - j,
        {
            let ghost prev = options@;
            if self.corners.contains_key(&j) && self.clearings[j].keep == 0 {
                options.push(j);
            }
            proof {
                assert forall|x: usize| options@.contains(x) <==> x < j + 1 && self@.eyrie_option(x) by {
                    if options@.contains(x) && x != j {
                        let k = choose|k: int| 0 <= k < options@.len() && options@[k] == x;
                        assert(prev[k] == x);
                        assert(prev.contains(x));
                    }
                    if x < j + 1 && self@.eyrie_option(x) {
                        if x == j {
                            assert(options@[options@.len() - 1] == x);
                        } else {
                            assert(prev.contains(x));
                            let k = choose|k: int| 0 <= k < prev.len() && prev[k] == x;
                            assert(options@[k] == x);
                        }
                    }
                }
            }
            j += 1;
        }
        proof {
            assert forall|x: usize| self@.eyrie_option(x) implies x < j by {
                assert(self@.corners.contains_key(x));
            }
        }
        options
    }

    /// Pairs two corner clearings with each other.
    pub(crate) fn add_corner(&mut self, corner: usize, opposite: usize)
        requires
            old(self).wf(),
            corner != opposite,
            old(self)@.has(corner as int),
            old(self)@.has(opposite as int),
            old(self)@.clearings[corner as int].corner,
            old(self)@.clearings[opposite as int].corner,
            !old(self)@.corners.contains_key(corner),
            !old(self)@.corners.contains_key(opposite),
        ensures
            final(self).wf(),
            final(self)@ == (BoardView {
                corners: old(self)@.corners.insert(corner, opposite).insert(opposite, corner),
                ..old(self)@
            }),
    {
        self.corners.insert(corner, opposite);
        self.corners.insert(opposite, corner);
        proof {
            let v = self@;
            assert forall|a: usize| #[trigger] v.corners.contains_key(a) implies {
                let b = v.corners[a];
                &&& v.corners.contains_key(b)
                &&& v.corners[b] == a
                &&& a != b
                &&& v.has(a as int)
                &&& v.clearings[a as int].corner
            } by {
                if a != corner && a != opposite {
                    assert(old(self)@.corners.contains_key(a));
                    let b = old(self)@.corners[a];
                    assert(old(self)@.corners.contains_key(b));
                }
            }
        }
    }
}

} // verus!
