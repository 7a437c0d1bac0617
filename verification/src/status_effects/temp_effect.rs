use vstd::prelude::*;

use crate::state::turn::Turn;

use super::effect::PlayerStatusEffect;
use super::effect_entry::{EffectOrigin, PlayerStatusEffectEntry};

verus! {

/// How long a temporary status effect lasts.
#[derive(Debug, Clone, Copy, PartialEq, Eq, Structural)]
pub enum EffectDuration {
    /// Until the turn with this number ends.
    ForThisTurn(u32),
    /// Until the given player's turn in the given round.
    UntilNextTurn(u32, usize),
}

impl EffectDuration {
    pub fn until_next_turn(turn: Turn) -> (r: EffectDuration)
        requires
            turn.round_number() < u32::MAX,
        ensures
            r == EffectDuration::UntilNextTurn((turn.round_number() + 1) as u32, turn.active_player()),
    {
        turn.until_next_turn()
    }

    pub fn for_this_turn(turn: Turn) -> (r: EffectDuration)
        ensures
            r == EffectDuration::ForThisTurn(turn.turn_number()),
    {
        turn.for_this_turn()
    }
}

#[derive(Debug, Clone, Copy, PartialEq, Eq, Structural)]
pub struct TemporaryPlayerStatusEffect {
    pub duration: EffectDuration,
    pub status_effect: PlayerStatusEffectEntry,
}

impl TemporaryPlayerStatusEffect {
    pub fn new(duration: EffectDuration, modifier: PlayerStatusEffect, origin: EffectOrigin) -> (r: Self)
        ensures
            r == (TemporaryPlayerStatusEffect {
                duration,
                status_effect: PlayerStatusEffectEntry { modifier, origin },
            }),
    {
        Self {
            duration,
            status_effect: PlayerStatusEffectEntry { modifier, origin },
        }
    }
}

} // verus!
