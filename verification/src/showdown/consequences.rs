use vstd::prelude::*;

use crate::game_context::GameBookKeeping;
use crate::ids;
use crate::state::game::Game;
use crate::state::player::Player;
use crate::tasks::PlayerTask;

verus! {

#[derive(Debug, Clone, Copy, PartialEq, Eq, Structural)]
pub enum Comparison {
    LE,
    GE,
}

/// A threshold that a roll has to reach, from above or from below.
#[derive(Debug, Clone, Copy, PartialEq, Eq, Structural)]
pub struct Condition {
    pub comparison: Comparison,
    pub threshold: i32,
}

impl Condition {
    pub open spec fn spec_applies_to(self, roll_sum: int) -> bool {
        match self.comparison {
            Comparison::GE => roll_sum >= self.threshold,
            Comparison::LE => roll_sum <= self.threshold,
        }
    }

    /// In a challenge, the roll sum is the initiator's total minus the challenger's:
    /// a sum of 0 or less sustains the challenge.
    pub fn challenge_sustained() -> (r: Self)
        ensures
            r == (Condition { comparison: Comparison::LE, threshold: 0 }),
    {
        Self { comparison: Comparison::LE, threshold: 0 }
    }

    /// A sum of 1 or more denies the challenge.
    pub fn challenge_denied() -> (r: Self)
        ensures
            r == (Condition { comparison: Comparison::GE, threshold: 1 }),
    {
        Self { comparison: Comparison::GE, threshold: 1 }
    }

    pub fn applies_to(&self, roll_sum: i32) -> (r: bool)
        ensures
            r == self.spec_applies_to(roll_sum as int),
    {
        match self.comparison {
            Comparison::GE => roll_sum >= self.threshold,
            Comparison::LE => roll_sum <= self.threshold,
        }
    }

    pub fn ge(threshold: i32) -> (r: Self)
        ensures
            r == (Condition { comparison: Comparison::GE, threshold }),
    {
        Self { comparison: Comparison::GE, threshold }
    }

    pub fn le(threshold: i32) -> (r: Self)
        ensures
            r == (Condition { comparison: Comparison::LE, threshold }),
    {
        Self { comparison: Comparison::LE, threshold }
    }
}

/// Every challenge is decided one way or the other: for any roll sum, exactly one of
/// "sustained" and "denied" applies.
pub proof fn lemma_challenge_outcome_is_decided(roll_sum: int)
    ensures
        (Condition { comparison: Comparison::LE, threshold: 0 }).spec_applies_to(roll_sum)
            != (Condition { comparison: Comparison::GE, threshold: 1 }).spec_applies_to(roll_sum),
{
}

/// The tasks a player is given when a roll meets a condition.
#[derive(Debug, Clone)]
pub struct RollConsequence {
    pub condition: Condition,
    pub tasks: Vec<PlayerTask>,
}

impl RollConsequence {
    /// A copy of this consequence.
    pub fn copy(&self) -> (r: Self)
        ensures
            r.condition == self.condition,
            r.tasks@ == self.tasks@,
    {
        RollConsequence { condition: self.condition, tasks: crate::tasks::copy_tasks(&self.tasks) }
    }
}

/// What follows a roll: the tasks for success, and possibly tasks for a loss.
#[derive(Debug, Clone)]
pub struct RollConsequences {
    pub success: RollConsequence,
    pub loss: Option<RollConsequence>,
}

/// The tasks that a roll with this sum brings: the success tasks if the success condition
/// applies, followed by the loss tasks if there are any and the loss condition applies.
pub open spec fn tasks_for(consequences: RollConsequences, roll_sum: int) -> Seq<PlayerTask> {
    (if consequences.success.condition.spec_applies_to(roll_sum) {
        consequences.success.tasks@
    } else {
        Seq::empty()
    }) + (match consequences.loss {
        Some(loss) => if loss.condition.spec_applies_to(roll_sum) {
            loss.tasks@
        } else {
            Seq::empty()
        },
        None => Seq::empty(),
    })
}

impl RollConsequences {
    pub fn new(success: RollConsequence, loss: Option<RollConsequence>) -> (r: Self)
        ensures
            r == (RollConsequences { success, loss }),
    {
        Self { success, loss }
    }

    /// A copy of these consequences.
    pub fn copy(&self) -> (r: Self)
        ensures
            r.success.condition == self.success.condition,
            r.success.tasks@ == self.success.tasks@,
            r.loss.is_some() == self.loss.is_some(),
            r.loss.is_some() ==> r.loss.unwrap().condition == self.loss.unwrap().condition
                && r.loss.unwrap().tasks@ == self.loss.unwrap().tasks@,
    {
        RollConsequences {
            success: self.success.copy(),
            loss: match &self.loss {
                Some(loss) => Some(loss.copy()),
                None => None,
            },
        }
    }

    /// Hands out the tasks that a roll with this sum brings; those tasks leave the consequences.
    pub fn take_tasks_for(&mut self, roll_sum: i32) -> (r: Vec<PlayerTask>)
        ensures
            r@ == tasks_for(*old(self), roll_sum as int),
            final(self).success.condition == old(self).success.condition,
            final(self).success.tasks@ == (if old(self).success.condition.spec_applies_to(roll_sum as int) {
                Seq::empty()
            } else {
                old(self).success.tasks@
            }),
            final(self).loss.is_some() == old(self).loss.is_some(),
            old(self).loss.is_some() ==> {
                let old_loss = old(self).loss.unwrap();
                let new_loss = final(self).loss.unwrap();
                &&& new_loss.condition == old_loss.condition
                &&& new_loss.tasks@ == (if old_loss.condition.spec_applies_to(roll_sum as int) {
                    Seq::empty()
                } else {
                    old_loss.tasks@
                })
            },
    {
        let mut ret = Vec::new();
        if self.success.condition.applies_to(roll_sum) {
            ret.append(&mut self.success.tasks);
        }
        if let Some(consequence) = self.loss.as_mut() {
            if consequence.condition.applies_to(roll_sum) {
                ret.append(&mut consequence.tasks);
            }
        }
        ret
    }

    /// Moves on as if the roll had summed to 1.
    pub fn proceed(&mut self, _context: &mut GameBookKeeping, game: &mut Game, player_index: ids::PlayerIndex)
        requires
            player_index < old(game).players@.len(),
        ensures
            final(game).gives_roll_tasks(*old(game), player_index, tasks_for(*old(self), 1)),
    {
        self.apply_roll_sum(game, 1, player_index);
    }

    /// Takes the tasks that a roll with this sum brings and puts them at the end of the
    /// roller's tasks, after taking away everyone's choices.
    pub fn apply_roll_sum(&mut self, game: &mut Game, roll_sum: i32, player_index: ids::PlayerIndex)
        requires
            player_index < old(game).players@.len(),
        ensures
            final(game).gives_roll_tasks(*old(game), player_index, tasks_for(*old(self), roll_sum as int)),
    {
        game.clear_all_choices();
        let mut tasks = self.take_tasks_for(roll_sum);
        let ghost cleared = *game;
        game.players[player_index].tasks.take_from(&mut tasks);
        proof {
            assert forall|i: int| 0 <= i < old(game).players@.len() && i != player_index implies
                #[trigger] game.players@[i] == (Player { choices: None, ..old(game).players@[i] }) by {
                assert(game.players@[i] == cleared.players@[i]);
            }
        }
    }
}

} // verus!
