use vstd::prelude::*;

verus! {

/// Identifies a card for the whole length of a game.
pub type CardId = u32;

/// Identifies one option among the choices offered to a player.
pub type ChoiceId = u32;

/// Identifies any element that a user interface may point at.
pub type ElementId = u32;

/// Identifies a player.
pub type PlayerId = u32;

/// Identifies a deck.
pub type DeckId = u32;

/// Identifies a roll.
pub type RollId = u32;

/// The position of a player in the game's list of players.
pub type PlayerIndex = usize;

/// Hands out fresh identifiers, one after the other.
#[derive(Debug, Clone, Default)]
pub struct IdGenerator {
    next_id: u32,
}

impl IdGenerator {
    /// The identifier that the previous call of `generate` returned (0 before the first call).
    pub closed spec fn last_id(self) -> u32 {
        self.next_id
    }

    pub fn new() -> (r: Self)
        ensures
            r.last_id() == 0,
    {
        IdGenerator { next_id: 0 }
    }

    /// Returns the identifier that follows the previous one; after `u32::MAX` the count wraps to 0.
    pub fn generate(&mut self) -> (id: u32)
        ensures
            id as int == (old(self).last_id() + 1) % 0x1_0000_0000,
            final(self).last_id() == id,
    {
        self.next_id = self.next_id.wrapping_add(1);
        self.next_id
    }
}

} // verus!
