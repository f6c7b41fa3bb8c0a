//! Facts that hold of every board and of every sequence of setup commands.
use crate::board::BoardView;
use crate::layout::{layout, layout_corners};
use crate::pieces::{MapError, MapType, Structure, Token, Faction};
use crate::topology::joined;
use vstd::prelude::*;

verus! {

/// In every layout the corner pairing is symmetric and pairs no corner with itself.
pub proof fn lemma_layout_corners_symmetric(kind: MapType)
    ensures
        forall|a: usize| #[trigger]
            layout_corners(kind).contains_key(a) ==> {
                let b = layout_corners(kind)[a];
                &&& layout_corners(kind).contains_key(b)
                &&& layout_corners(kind)[b] == a
                &&& a != b
            },
        layout(kind).wf(),
{
    let v = layout(kind);
    assert forall|j: int| v.has(j) implies #[trigger] v.clearings[j].wf() by {}
    assert(v.corners_paired());
}

/// On a well-formed board the corner pairing is symmetric, pairs no corner with
/// itself, and names only corner clearings.
pub proof fn lemma_corners_symmetric(v: BoardView)
    requires
        v.wf(),
    ensures
        forall|a: usize| #[trigger]
            v.corners.contains_key(a) ==> {
                let b = v.corners[a];
                &&& v.corners.contains_key(b)
                &&& v.corners[b] == a
                &&& a != b
                &&& v.clearings[a as int].corner
            },
{
}

/// The board after a sequence of `place_structure` calls, each applied only
/// where it succeeds.
pub open spec fn after_structure_calls(v: BoardView, calls: Seq<(usize, Structure)>) -> BoardView
    decreases calls.len(),
{
    if calls.len() == 0 {
        v
    } else {
        let (id, s) = calls[0];
        let next = if v.structure_outcome(id) is Ok {
            v.after_structure(id, s)
        } else {
            v
        };
        after_structure_calls(next, calls.drop_first())
    }
}

/// However many structures are placed, accepted or refused, no clearing holds
/// more structures than it has build spots.
pub proof fn lemma_structures_within_capacity(v: BoardView, calls: Seq<(usize, Structure)>)
    requires
        v.wf(),
    ensures
        after_structure_calls(v, calls).wf(),
        forall|j: int|
            0 <= j < after_structure_calls(v, calls).clearings.len() ==> (#[trigger] after_structure_calls(
                v,
                calls,
            ).clearings[j]).structures.len() <= after_structure_calls(v, calls).clearings[j].build_spots,
    decreases calls.len(),
{
    if calls.len() > 0 {
        let (id, s) = calls[0];
        if v.structure_outcome(id) is Ok {
            let c = v.clearings[id as int].add_structure(s);
            assert(v.clearings[id as int].wf());
            v.lemma_update_wf(id as int, c);
            lemma_structures_within_capacity(v.after_structure(id, s), calls.drop_first());
        } else {
            lemma_structures_within_capacity(v, calls.drop_first());
        }
    }
    let w = after_structure_calls(v, calls);
    assert forall|j: int| 0 <= j < w.clearings.len() implies (#[trigger] w.clearings[j]).structures.len()
        <= w.clearings[j].build_spots by {
        assert(w.clearings[j].wf());
    }
}

/// With the Keep on clearing `k` of a well-formed board, the clearings from `n`
/// on hold one Keep token if `k` is among them, none otherwise.
proof fn lemma_keep_tokens_from(v: BoardView, k: usize, n: int)
    requires
        v.wf(),
        v.keep == Some(k),
        0 <= n <= v.clearings.len(),
    ensures
        v.keep_tokens_from(n) == if n <= k {
            1nat
        } else {
            0nat
        },
    decreases v.clearings.len() - n,
{
    if n < v.clearings.len() {
        lemma_keep_tokens_from(v, k, n + 1);
        assert(v.clearings[n].keep == if n == k {
            1nat
        } else {
            0nat
        });
    } else {
        assert(v.corners.contains_key(k));
    }
}

/// Once the Keep is placed, placing it again fails with `AlreadyPlaced` on
/// every corner, and the board holds exactly one Keep token.
pub proof fn lemma_keep_placed_once(v: BoardView, c: usize)
    requires
        v.wf(),
        v.keep_outcome(c) is Ok,
    ensures
        forall|d: usize|
            v.after_keep(c).corners.contains_key(d) ==> #[trigger] v.after_keep(c).keep_outcome(d)
                == Err::<(), MapError>(MapError::AlreadyPlaced),
        v.after_keep(c).keep_tokens() == 1,
{
    v.lemma_after_keep_wf(c);
    lemma_keep_tokens_from(v.after_keep(c), c, 0);
}

/// Placing the Keep on a board without Marquise warriors leaves the opposite
/// corner without any and puts exactly one on every other clearing.
pub proof fn lemma_keep_seeds_marquise(v: BoardView, c: usize)
    requires
        v.wf(),
        v.keep_outcome(c) is Ok,
        forall|j: int| 0 <= j < v.clearings.len() ==> #[trigger] v.clearings[j].marquise == 0,
    ensures
        v.after_keep(c).clearings[v.corners[c] as int].warriors(Faction::Marquise) == 0,
        forall|j: int|
            0 <= j < v.clearings.len() && j != v.corners[c] ==> #[trigger] v.after_keep(
                c,
            ).clearings[j].warriors(Faction::Marquise) == 1,
{
    assert(v.corners.contains_key(c));
    let o = v.corners[c];
    assert(v.clearings[o as int].marquise == 0);
}

/// Every Marquise option has a free build spot and is the Keep's clearing or
/// one joined to it.
pub proof fn lemma_marquise_options_sound(v: BoardView, x: usize)
    requires
        v.wf(),
        v.marquise_option(x),
    ensures
        v.keep is Some,
        v.has(x as int),
        v.clearings[x as int].structures.len() < v.clearings[x as int].build_spots,
        x == v.keep->Some_0 || joined(v.edges, v.keep->Some_0 as nat, x as nat),
{
}

/// No Eyrie option holds the Keep.
pub proof fn lemma_eyrie_options_avoid_keep(v: BoardView, x: usize)
    requires
        v.wf(),
        v.eyrie_option(x),
    ensures
        v.corners.contains_key(x),
        v.clearings[x as int].tokens(Token::Keep) == 0,
        v.keep != Some(x),
{
}

/// The Fall layout has twelve clearings, eighteen paths and four distinct
/// corners in two pairs.
pub proof fn lemma_fall_layout_shape()
    ensures
        layout(MapType::Fall).clearings.len() == 12,
        layout(MapType::Fall).edges.len() == 18,
        layout_corners(MapType::Fall).dom() == set![0usize, 11usize, 8usize, 2usize],
        layout_corners(MapType::Fall).dom().len() == 4,
        layout_corners(MapType::Fall)[0] == 11 && layout_corners(MapType::Fall)[8] == 2,
{
    let d = layout_corners(MapType::Fall).dom();
    assert(d =~= set![0usize, 11usize, 8usize, 2usize]);
    assert(set![0usize, 11usize, 8usize, 2usize].len() == 4) by {
        assert(set![0usize, 11usize, 8usize, 2usize] == set![0usize].insert(11usize).insert(8usize).insert(2usize));
    }
}

} // verus!
