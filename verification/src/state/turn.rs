use vstd::prelude::*;

use crate::ids;
use crate::modifiers::ModifierDuration;
use crate::specification;

verus! {

/// Whose turn it is, and how far the game has gone.
#[derive(Debug, Clone, Copy, PartialEq, Eq, Structural)]
pub struct Turn {
    turn_number: u32,
    round_number: u32,
    player_index: usize,
}

impl Default for Turn {
    /// The first turn of a game: player 0's turn in round 0.
    fn default() -> (r: Turn)
        ensures
            r.turn_number() == 0,
            r.round_number() == 0,
            r.active_player() == 0,
    {
        Turn { turn_number: 0, round_number: 0, player_index: 0 }
    }
}

impl Turn {
    /// How many turns have been played.
    pub closed spec fn turn_number(self) -> u32 {
        self.turn_number
    }

    /// How many times every player has had a turn.
    pub closed spec fn round_number(self) -> u32 {
        self.round_number
    }

    /// The index of the player whose turn it is.
    pub closed spec fn active_player(self) -> usize {
        self.player_index
    }

    /// Whether a status effect that lasts for `duration` still holds during this turn: one for
    /// a turn holds during that turn; one until its owner's next turn (stored as the round and
    /// the player of that turn) holds until that turn begins.
    pub open spec fn is_active_during(self, duration: ModifierDuration) -> bool {
        match duration {
            ModifierDuration::ForThisTurn(turn_number) => turn_number == self.turn_number(),
            ModifierDuration::UntilNextTurn(round_number, player_index) => {
                self.round_number() < round_number || (self.round_number() == round_number
                    && self.active_player() < player_index)
            },
        }
    }

    pub fn for_this_turn(&self) -> (r: ModifierDuration)
        ensures
            r == ModifierDuration::ForThisTurn(self.turn_number()),
    {
        ModifierDuration::ForThisTurn(self.turn_number)
    }

    pub fn until_next_turn(&self) -> (r: ModifierDuration)
        requires
            self.round_number() < u32::MAX,
        ensures
            r == ModifierDuration::UntilNextTurn((self.round_number() + 1) as u32, self.active_player()),
    {
        ModifierDuration::UntilNextTurn(self.round_number + 1, self.player_index)
    }

    pub fn set_active_player(&mut self, player_index: ids::PlayerIndex)
        ensures
            final(self).active_player() == player_index,
            final(self).turn_number() == old(self).turn_number(),
            final(self).round_number() == old(self).round_number(),
    {
        self.player_index = player_index;
    }

    pub fn still_active(&self, duration: &ModifierDuration) -> (r: bool)
        ensures
            r == self.is_active_during(*duration),
    {
        match duration {
            ModifierDuration::ForThisTurn(turn_number) => *turn_number == self.turn_number,
            ModifierDuration::UntilNextTurn(round_number, player_index) => {
                self.round_number < *round_number || (self.round_number == *round_number
                    && self.player_index < *player_index)
            },
        }
    }

    /// Passes the turn to the next player; after the last player, a new round begins with player 0.
    pub fn increment(&mut self, number_of_players: usize)
        requires
            old(self).turn_number() < u32::MAX,
            old(self).round_number() < u32::MAX,
            old(self).active_player() < usize::MAX,
        ensures
            final(self).turn_number() == old(self).turn_number() + 1,
            old(self).active_player() + 1 < number_of_players ==> {
                &&& final(self).active_player() == old(self).active_player() + 1
                &&& final(self).round_number() == old(self).round_number()
            },
            old(self).active_player() + 1 >= number_of_players ==> {
                &&& final(self).active_player() == 0
                &&& final(self).round_number() == old(self).round_number() + 1
            },
            // Taking turns cycles through the players.
            0 < number_of_players && old(self).active_player() < number_of_players ==> {
                &&& final(self).active_player() == (old(self).active_player() + 1) % (number_of_players as int)
                &&& final(self).active_player() < number_of_players
            },
    {
        proof {
            let n = number_of_players as int;
            let next = old(self).active_player() + 1;
            if 0 < n && old(self).active_player() < n {
                if next < n {
                    vstd::arithmetic::div_mod::lemma_small_mod(next as nat, n as nat);
                } else {
                    vstd::arithmetic::div_mod::lemma_mod_self_0(n);
                }
            }
        }
        self.player_index += 1;
        self.turn_number += 1;
        if self.player_index < number_of_players {
            return;
        }
        self.player_index = 0;
        self.round_number += 1;
    }

    /// Whether a round can follow the current one.
    pub fn has_next_round(&self) -> (r: bool)
        ensures
            r == (self.round_number() < u32::MAX),
    {
        self.round_number < u32::MAX
    }

    pub fn over_the_limit(&self) -> (r: bool)
        ensures
            r == (self.round_number() >= specification::MAX_TURNS),
    {
        self.round_number >= specification::MAX_TURNS
    }

    pub fn active_player_index(&self) -> (r: ids::PlayerIndex)
        ensures
            r == self.active_player(),
    {
        self.player_index
    }
}

} // verus!
