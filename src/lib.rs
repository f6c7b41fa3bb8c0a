//! Board and setup-phase rules for a two-faction territory game.
mod board;
mod laws;
mod layout;
mod pieces;
mod topology;

pub use board::{Board, BoardView, Corner, EYRIE_START_WARRIORS};
pub use laws::{
    after_structure_calls, lemma_corners_symmetric, lemma_eyrie_options_avoid_keep,
    lemma_fall_layout_shape, lemma_keep_placed_once, lemma_keep_seeds_marquise,
    lemma_layout_corners_symmetric, lemma_marquise_options_sound, lemma_structures_within_capacity,
};
pub use layout::{initialize_map, layout, layout_clearings, layout_corners, layout_edges, setup_board};
pub use pieces::{Clearing, ClearingView, Faction, MapError, MapType, Structure, Suit, Token};
pub use topology::joined;
