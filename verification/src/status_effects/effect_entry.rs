use vstd::prelude::*;

use crate::showdown::roll_modification::{ModificationOrigin, RollModification};
use crate::showdown::roll_state::RollReason;
use crate::specification::HeroType;
use crate::specs::magic::MagicSpell;

use super::effect::{HeroStatusEffect, PlayerStatusEffect};

verus! {

/// Where a status effect comes from.
#[derive(Debug, Clone, Copy, PartialEq, Eq, Structural)]
pub enum EffectOrigin {
    FromMagicCard(MagicSpell),
    FromHeroAbility,
    FromSlainMonster,
    FromPartyLeader(HeroType),
    FromItem,
}

#[derive(Debug, Clone, Copy, PartialEq, Eq, Structural)]
pub struct PlayerStatusEffectEntry {
    pub modifier: PlayerStatusEffect,
    pub origin: EffectOrigin,
}

#[derive(Debug, Clone, Copy, PartialEq, Eq, Structural)]
pub struct HeroStatusEffectEntry {
    pub effect: HeroStatusEffect,
    pub origin: EffectOrigin,
}

/// The change that a hero's status effect makes to a roll made for `reason`, if any:
/// only `AddToRollForAbility` changes a roll, and only a roll to use a hero's ability.
pub open spec fn hero_roll_modification(entry: HeroStatusEffectEntry, reason: RollReason) -> Option<RollModification> {
    match entry.effect {
        HeroStatusEffect::AddToRollForAbility(amount) => match reason {
            RollReason::UseHeroAbility(_) => Some(RollModification {
                origin: ModificationOrigin::FromBuff(EffectOrigin::FromItem),
                amount,
            }),
            _ => None,
        },
        _ => None,
    }
}

/// The change that a player's status effect makes to a roll made for `reason`, if any.
pub open spec fn player_roll_modification(entry: PlayerStatusEffectEntry, reason: RollReason) -> Option<RollModification> {
    let modification = RollModification { origin: ModificationOrigin::FromBuff(entry.origin), amount: 0 };
    match entry.modifier {
        PlayerStatusEffect::AddToAllRolls(amount) => Some(RollModification { amount, ..modification }),
        PlayerStatusEffect::AddToRollForAnyAbility(amount) => match reason {
            RollReason::UseHeroAbility(_) => Some(RollModification { amount, ..modification }),
            _ => None,
        },
        PlayerStatusEffect::AddToRollForChallenge(amount) => match reason {
            RollReason::Challenged | RollReason::Challenging => Some(RollModification { amount, ..modification }),
            _ => None,
        },
        PlayerStatusEffect::AddToRollForAttack(amount) => match reason {
            RollReason::AttackMonster(_) => Some(RollModification { amount, ..modification }),
            _ => None,
        },
        _ => None,
    }
}

impl HeroStatusEffectEntry {
    pub fn new(effect: HeroStatusEffect, origin: EffectOrigin) -> (r: Self)
        ensures
            r == (HeroStatusEffectEntry { effect, origin }),
    {
        Self { effect, origin }
    }

    pub fn create_roll_modification(&self, reason: RollReason) -> (r: Option<RollModification>)
        ensures
            r == hero_roll_modification(*self, reason),
    {
        match self.effect {
            HeroStatusEffect::AddToRollForAbility(amount) => match reason {
                RollReason::UseHeroAbility(_) => Some(RollModification {
                    origin: ModificationOrigin::FromBuff(EffectOrigin::FromItem),
                    amount,
                }),
                _ => None,
            },
            _ => None,
        }
    }
}

impl PlayerStatusEffectEntry {
    pub fn new(modifier: PlayerStatusEffect, origin: EffectOrigin) -> (r: Self)
        ensures
            r == (PlayerStatusEffectEntry { modifier, origin }),
    {
        Self { modifier, origin }
    }

    pub fn create_roll_modification(&self, reason: RollReason) -> (r: Option<RollModification>)
        ensures
            r == player_roll_modification(*self, reason),
    {
        match self.modifier {
            PlayerStatusEffect::AddToAllRolls(amount) => Some(RollModification {
                origin: ModificationOrigin::FromBuff(self.origin),
                amount,
            }),
            PlayerStatusEffect::AddToRollForAnyAbility(amount) => match reason {
                RollReason::UseHeroAbility(_) => Some(RollModification {
                    origin: ModificationOrigin::FromBuff(self.origin),
                    amount,
                }),
                _ => None,
            },
            PlayerStatusEffect::AddToRollForChallenge(amount) => match reason {
                RollReason::Challenged | RollReason::Challenging => Some(RollModification {
                    origin: ModificationOrigin::FromBuff(self.origin),
                    amount,
                }),
                _ => None,
            },
            PlayerStatusEffect::AddToRollForAttack(amount) => match reason {
                RollReason::AttackMonster(_) => Some(RollModification {
                    origin: ModificationOrigin::FromBuff(self.origin),
                    amount,
                }),
                _ => None,
            },
            _ => None,
        }
    }
}

} // verus!
