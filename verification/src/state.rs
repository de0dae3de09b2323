//! The top-level game state.

use vstd::prelude::*;

verus! {

/// The two top-level modes of the game. Exactly one is current at any
/// time; it also serves as the scope marker that ties every spawned
/// entity to the state it belongs to, so that leaving a state can tear
/// all of its entities down in bulk.
#[derive(Clone, Copy, Debug, PartialEq, Eq, Structural)]
pub enum GameState {
    Menu,
    Playing,
}

} // verus!
