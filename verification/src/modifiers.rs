//! The names under which the rest of the library refers to status effects.
use vstd::prelude::*;

verus! {

pub type PlayerModifier = crate::status_effects::effect::PlayerStatusEffect;

pub type ItemModifier = crate::status_effects::effect::HeroStatusEffect;

pub type ModifierOrigin = crate::status_effects::effect_entry::EffectOrigin;

pub type ModifierDuration = crate::status_effects::temp_effect::EffectDuration;

pub type PlayerBuffs = crate::state::status_effects::PlayerStatusEffects;

} // verus!
