use vstd::prelude::*;

use crate::specification::HeroType;
use crate::status_effects::effect::PlayerStatusEffect;
use crate::status_effects::effect_entry::{EffectOrigin, PlayerStatusEffectEntry};

verus! {

impl HeroType {
    /// What the party leader of this class gives its player.
    pub open spec fn spec_leader_effect(self) -> Option<PlayerStatusEffect> {
        match self {
            HeroType::Bard => Some(PlayerStatusEffect::AddToRollForAnyAbility(1)),
            HeroType::Wizard => Some(PlayerStatusEffect::DrawOnPlayMagic),
            HeroType::Fighter => Some(PlayerStatusEffect::AddToRollForChallenge(2)),
            HeroType::Gaurdian => Some(PlayerStatusEffect::ModifierBonus),
            HeroType::Ranger => Some(PlayerStatusEffect::AddToRollForAttack(1)),
            HeroType::Thief => None,
        }
    }

    pub fn get_leader_effect(&self) -> (r: Option<PlayerStatusEffect>)
        ensures
            r == self.spec_leader_effect(),
    {
        match self {
            HeroType::Bard => Some(PlayerStatusEffect::AddToRollForAnyAbility(1)),
            HeroType::Wizard => Some(PlayerStatusEffect::DrawOnPlayMagic),
            HeroType::Fighter => Some(PlayerStatusEffect::AddToRollForChallenge(2)),
            HeroType::Gaurdian => Some(PlayerStatusEffect::ModifierBonus),
            HeroType::Ranger => Some(PlayerStatusEffect::AddToRollForAttack(1)),
            HeroType::Thief => None,
        }
    }

    pub fn get_leader_effect_entry(&self) -> (r: Option<PlayerStatusEffectEntry>)
        ensures
            r == match self.spec_leader_effect() {
                Some(effect) => Some(PlayerStatusEffectEntry { modifier: effect, origin: EffectOrigin::FromPartyLeader(*self) }),
                None => None,
            },
    {
        match self.get_leader_effect() {
            Some(effect) => Some(PlayerStatusEffectEntry { modifier: effect, origin: EffectOrigin::FromPartyLeader(*self) }),
            None => None,
        }
    }
}

} // verus!
