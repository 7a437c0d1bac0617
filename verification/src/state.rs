pub mod deck;
pub mod game;
pub mod initialize;

pub mod player;
pub mod stack;
pub mod status_effects;
pub mod turn;

pub use deck::{Deck, DeckPath};
pub use game::Game;
pub use player::Player;
pub use stack::{Card, Stack};
pub use turn::Turn;

use vstd::prelude::*;

verus! {

/// The kinds of values that a choice can ask a player for.
#[derive(Debug, Clone, Copy, PartialEq, Eq, Structural)]
pub enum ChoiceParamType {
    Player,
    Card,
    Enumeration,
    Index,
}

} // verus!
