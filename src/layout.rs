//! The named board layouts and how a board is built from one.
use crate::board::{Board, BoardView};
use crate::pieces::{ClearingView, MapType, Suit};
use crate::topology::edge_seq;
use vstd::prelude::*;

verus! {

/// The clearings of a layout, in the order they are created.
pub open spec fn layout_clearings(kind: MapType) -> Seq<ClearingView> {
    match kind {
        MapType::Simple => seq![
            ClearingView::fresh(Suit::Bird, 2, true),
            ClearingView::fresh(Suit::Bird, 1, true),
        ],
        MapType::V => seq![
            ClearingView::fresh(Suit::Bird, 2, true),
            ClearingView::fresh(Suit::Bird, 1, true),
            ClearingView::fresh(Suit::Mouse, 1, false),
        ],
        MapType::Fall => seq![
            ClearingView::fresh(Suit::Fox, 1, true),
            ClearingView::fresh(Suit::Rabbit, 2, false),
            ClearingView::fresh(Suit::Mouse, 2, true),
            ClearingView::fresh(Suit::Mouse, 2, false),
            ClearingView::fresh(Suit::Rabbit, 2, false),
            ClearingView::fresh(Suit::Fox, 2, false),
            ClearingView::fresh(Suit::Mouse, 3, false),
            ClearingView::fresh(Suit::Fox, 2, false),
            ClearingView::fresh(Suit::Rabbit, 1, true),
            ClearingView::fresh(Suit::Fox, 2, false),
            ClearingView::fresh(Suit::Mouse, 2, false),
            ClearingView::fresh(Suit::Rabbit, 1, true),
        ],
    }
}

/// The paths of a layout, in the order they are added.
pub open spec fn layout_edges(kind: MapType) -> Seq<(nat, nat)> {
    match kind {
        MapType::Simple => seq![(0nat, 1nat)],
        MapType::V => seq![(0nat, 2nat), (2nat, 1nat)],
        MapType::Fall => seq![
            (0nat, 1nat),
            (1nat, 2nat),
            (0nat, 4nat),
            (2nat, 4nat),
            (0nat, 3nat),
            (4nat, 5nat),
            (2nat, 7nat),
            (3nat, 5nat),
            (5nat, 6nat),
            (6nat, 7nat),
            (3nat, 8nat),
            (5nat, 8nat),
            (5nat, 10nat),
            (6nat, 11nat),
            (7nat, 11nat),
            (8nat, 9nat),
            (9nat, 10nat),
            (10nat, 11nat),
        ],
    }
}

/// The corner pairing of a layout.
pub open spec fn layout_corners(kind: MapType) -> Map<usize, usize> {
    match kind {
        MapType::Simple => map![0usize => 1usize, 1usize => 0usize],
        MapType::V => map![0usize => 1usize, 1usize => 0usize],
        MapType::Fall => map![0usize => 11usize, 11usize => 0usize, 8usize => 2usize, 2usize => 8usize],
    }
}

/// The board that a layout starts as: empty clearings and no Keep.
pub open spec fn layout(kind: MapType) -> BoardView {
    BoardView {
        clearings: layout_clearings(kind),
        edges: layout_edges(kind),
        corners: layout_corners(kind),
        keep: None,
    }
}

/// Builds the board of the named layout.
pub fn initialize_map(map_type: MapType) -> (r: Board)
    ensures
        r.wf(),
        r@ == layout(map_type),
{
    let mut map = Board::empty();
    match map_type {
        MapType::Simple => {
            let left = map.add_clearing(Suit::Bird, 2, true);
            let right = map.add_clearing(Suit::Bird, 1, true);
            let pairs: Vec<(u8, u8)> = vec![(0, 1)];
            map.extend_with_paths(&pairs);
            map.add_corner(left, right);
        },
        MapType::V => {
            let left = map.add_clearing(Suit::Bird, 2, true);
            let right = map.add_clearing(Suit::Bird, 1, true);
            let _middle = map.add_clearing(Suit::Mouse, 1, false);
            let pairs: Vec<(u8, u8)> = vec![(0, 2), (2, 1)];
            map.extend_with_paths(&pairs);
            map.add_corner(left, right);
        },
        MapType::Fall => {
            let topfox = map.add_clearing(Suit::Fox, 1, true);
            let _toprabbit = map.add_clearing(Suit::Rabbit, 2, false);
            let topmouse = map.add_clearing(Suit::Mouse, 2, true);
            let _leftmouse = map.add_clearing(Suit::Mouse, 2, false);
            let _middlerabbit = map.add_clearing(Suit::Rabbit, 2, false);
            let _middlefox = map.add_clearing(Suit::Fox, 2, false);
            let _middlemouse = map.add_clearing(Suit::Mouse, 3, false);
            let _rightfox = map.add_clearing(Suit::Fox, 2, false);
            let bottomrabbit = map.add_clearing(Suit::Rabbit, 1, true);
            let _bottomfox = map.add_clearing(Suit::Fox, 2, false);
            let _bottommouse = map.add_clearing(Suit::Mouse, 2, false);
            let bottomright = map.add_clearing(Suit::Rabbit, 1, true);
            let pairs: Vec<(u8, u8)> = vec![
                (0, 1),
                (1, 2),
                (0, 4),
                (2, 4),
                (0, 3),
                (4, 5),
                (2, 7),
                (3, 5),
                (5, 6),
                (6, 7),
                (3, 8),
                (5, 8),
                (5, 10),
                (6, 11),
                (7, 11),
                (8, 9),
                (9, 10),
                (10, 11),
            ];
            map.extend_with_paths(&pairs);
            map.add_corner(topfox, bottomright);
            map.add_corner(bottomrabbit, topmouse);
        },
    }
    assert(map@.clearings =~= layout_clearings(map_type));
    assert(map@.edges =~= layout_edges(map_type));
    assert(map@.corners =~= layout_corners(map_type));
    map
}

/// The board that a full game is set up on.
pub fn setup_board() -> (r: Board)
    ensures
        r.wf(),
        r@ == layout(MapType::Fall),
{
    initialize_map(MapType::Fall)
}

} // verus!
