use vstd::prelude::*;

use crate::state::turn::Turn;
use crate::status_effects::effect::PlayerStatusEffect;
use crate::status_effects::effect_entry::{EffectOrigin, PlayerStatusEffectEntry};
use crate::status_effects::temp_effect::{EffectDuration, TemporaryPlayerStatusEffect};

verus! {

/// The temporary status effects that a player is under.
#[derive(Debug, Clone)]
pub struct PlayerStatusEffects {
    temporary_effects: Vec<TemporaryPlayerStatusEffect>,
}

impl View for PlayerStatusEffects {
    type V = Seq<TemporaryPlayerStatusEffect>;

    closed spec fn view(&self) -> Seq<TemporaryPlayerStatusEffect> {
        self.temporary_effects@
    }
}

impl Default for PlayerStatusEffects {
    fn default() -> (r: Self)
        ensures
            r@ == Seq::<TemporaryPlayerStatusEffect>::empty(),
    {
        PlayerStatusEffects { temporary_effects: Vec::new() }
    }
}

/// The entries of a list of temporary effects, in order.
pub open spec fn entries_of(effects: Seq<TemporaryPlayerStatusEffect>) -> Seq<PlayerStatusEffectEntry> {
    effects.map_values(|e: TemporaryPlayerStatusEffect| e.status_effect)
}

/// The effects of a list that are still active during a turn, in order.
pub open spec fn active_during(effects: Seq<TemporaryPlayerStatusEffect>, turn: Turn) -> Seq<TemporaryPlayerStatusEffect> {
    effects.filter(|e: TemporaryPlayerStatusEffect| turn.is_active_during(e.duration))
}

impl PlayerStatusEffects {
    /// Creates a list with no effects.
    pub fn new() -> (r: Self)
        ensures
            r@ == Seq::<TemporaryPlayerStatusEffect>::empty(),
    {
        PlayerStatusEffects { temporary_effects: Vec::new() }
    }

    /// A copy of this list.
    pub fn copy(&self) -> (r: Self)
        ensures
            r@ == self@,
    {
        let mut v: Vec<TemporaryPlayerStatusEffect> = Vec::new();
        let mut i: usize = 0;
        while i < self.temporary_effects.len()
            invariant
                i <= self.temporary_effects@.len(),
                v@ == self.temporary_effects@.take(i as int),
            decreases self.temporary_effects@.len() - i,
        {
            v.push(self.temporary_effects[i]);
            i = i + 1;
            assert(v@ =~= self.temporary_effects@.take(i as int));
        }
        assert(v@ =~= self.temporary_effects@);
        PlayerStatusEffects { temporary_effects: v }
    }

    /// The entries of the effects, in the order in which they were added.
    pub fn player_effects(&self) -> (r: Vec<PlayerStatusEffectEntry>)
        ensures
            r@ == entries_of(self@),
    {
        let mut r: Vec<PlayerStatusEffectEntry> = Vec::new();
        let mut i: usize = 0;
        while i < self.temporary_effects.len()
            invariant
                i <= self.temporary_effects@.len(),
                r@ == entries_of(self.temporary_effects@.take(i as int)),
            decreases self.temporary_effects@.len() - i,
        {
            r.push(self.temporary_effects[i].status_effect);
            i = i + 1;
            assert(entries_of(self.temporary_effects@.take(i as int)) =~= r@);
        }
        assert(self.temporary_effects@.take(i as int) =~= self.temporary_effects@);
        r
    }

    /// Whether one of the effects is the given one, whatever its origin.
    pub fn has_player_effect(&self, effect: PlayerStatusEffect) -> (r: bool)
        ensures
            r == (exists|i: int| 0 <= i < self@.len() && #[trigger] self@[i].status_effect.modifier == effect),
    {
        let mut i: usize = 0;
        while i < self.temporary_effects.len()
            invariant
                i <= self.temporary_effects@.len(),
                forall|j: int| 0 <= j < i ==> self.temporary_effects@[j].status_effect.modifier != effect,
            decreases self.temporary_effects@.len() - i,
        {
            if self.temporary_effects[i].status_effect.modifier == effect {
                return true;
            }
            i = i + 1;
        }
        false
    }

    /// Drops the effects that are no longer active during the given turn, keeping the order of the others.
    pub fn clear_expired_modifiers(&mut self, turn: &Turn)
        ensures
            final(self)@ == active_during(old(self)@, *turn),
    {
        let mut kept: Vec<TemporaryPlayerStatusEffect> = Vec::new();
        let mut i: usize = 0;
        let ghost old_effects = self.temporary_effects@;
        while i < self.temporary_effects.len()
            invariant
                old_effects == self.temporary_effects@,
                i <= old_effects.len(),
                kept@ == active_during(old_effects.take(i as int), *turn),
            decreases old_effects.len() - i,
        {
            let effect = self.temporary_effects[i];
            proof {
                assert(old_effects.take(i + 1).drop_last() =~= old_effects.take(i as int));
            }
            if turn.still_active(&effect.duration) {
                kept.push(effect);
            }
            i = i + 1;
            proof {
                let f = |e: TemporaryPlayerStatusEffect| turn.is_active_during(e.duration);
                assert(old_effects.take(i as int).filter(f) =~= old_effects.take(i - 1).filter(f)
                    + (if f(effect) { seq![effect] } else { Seq::empty() })) by {
                    reveal_with_fuel(Seq::filter, 1);
                    assert(old_effects.take(i as int).drop_last() =~= old_effects.take(i - 1));
                }
            }
        }
        assert(old_effects.take(i as int) =~= old_effects);
        self.temporary_effects = kept;
    }

    /// Adds an effect with the given duration, kind and origin at the end.
    pub fn add_buff(&mut self, duration: EffectDuration, modifier: PlayerStatusEffect, origin: EffectOrigin)
        ensures
            final(self)@ == old(self)@.push(
                TemporaryPlayerStatusEffect { duration, status_effect: PlayerStatusEffectEntry { modifier, origin } },
            ),
    {
        self.temporary_effects.push(
            TemporaryPlayerStatusEffect { duration, status_effect: PlayerStatusEffectEntry { modifier, origin } },
        );
    }

    /// Adds an effect at the end.
    pub fn add(&mut self, effect: TemporaryPlayerStatusEffect)
        ensures
            final(self)@ == old(self)@.push(effect),
    {
        self.temporary_effects.push(effect);
    }
}

} // verus!
