use vstd::prelude::*;

use rand::rngs::ThreadRng;

use crate::game_context;
use crate::specs::cards::SlayCardSpec;

use super::roll_modification::{amounts_fit, sum_amounts, total_amount, RollModification};

verus! {

/// The two dice of a roll.
#[derive(Debug, Clone, Copy, PartialEq, Eq, Structural)]
pub struct Roll {
    pub die1: u32,
    pub die2: u32,
}

/// What a player attempted when they were challenged.
#[derive(Debug, Clone, Copy, PartialEq, Eq, Structural)]
pub enum ChallengeReason {
    PlaceHeroCard(SlayCardSpec),
    PlaceItem(SlayCardSpec),
    CastMagic(SlayCardSpec),
}

impl Roll {
    /// Both dice and the modifications, added up.
    pub open spec fn spec_total(self, modifications: Seq<RollModification>) -> int {
        self.die1 + self.die2 + total_amount(modifications)
    }

    /// Whether the total of the roll, and every step of computing it, fits in an `i32`.
    pub open spec fn total_fits(self, modifications: Seq<RollModification>) -> bool {
        &&& self.die1 + self.die2 <= i32::MAX
        &&& amounts_fit(modifications)
        &&& i32::MIN <= self.spec_total(modifications) <= i32::MAX
    }

    /// Two dice, each from 1 to 6.
    pub fn create_from(rng: &mut ThreadRng) -> (r: Self)
        ensures
            1 <= r.die1 <= 6,
            1 <= r.die2 <= 6,
    {
        let die1 = game_context::roll_die(rng);
        let die2 = game_context::roll_die(rng);
        Roll { die1, die2 }
    }

    pub fn calculate_total(&self, modifications: &[RollModification]) -> (r: i32)
        requires
            self.total_fits(modifications@),
        ensures
            r == self.spec_total(modifications@),
    {
        let sum = sum_amounts(modifications);
        (self.die1 as i32) + (self.die2 as i32) + sum
    }
}

} // verus!
