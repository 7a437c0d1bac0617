use vstd::prelude::*;

use crate::specification::{HeroType, ItemType};
use crate::specs::cards::card_type::SlayCardSpec;
use crate::status_effects::effect::HeroStatusEffect;
use crate::status_effects::effect_entry::{EffectOrigin, HeroStatusEffectEntry};

verus! {

/// The item cards other than masks.
#[derive(Debug, Clone, Copy, PartialEq, Eq, Structural)]
pub enum Item {
    DecoyDoll,
    ReallyBigRing,
    ParticularlyRustyCoin,
    SealingKey,
    SuspiciouslyShinyCoin,
    CurseOfTheSnakesEyes,
}

impl Item {
    pub open spec fn spec_item_type(self) -> ItemType {
        match self {
            Item::DecoyDoll | Item::ReallyBigRing | Item::ParticularlyRustyCoin => ItemType::Blessed,
            Item::SealingKey | Item::SuspiciouslyShinyCoin | Item::CurseOfTheSnakesEyes => ItemType::Cursed,
        }
    }

    pub fn item_type(&self) -> (r: ItemType)
        ensures
            r == self.spec_item_type(),
    {
        match self {
            Item::DecoyDoll | Item::ReallyBigRing | Item::ParticularlyRustyCoin => ItemType::Blessed,
            Item::SealingKey | Item::SuspiciouslyShinyCoin | Item::CurseOfTheSnakesEyes => {
                ItemType::Cursed
            },
        }
    }
}

/// The item cards: a mask of some class, or another item.
#[derive(Debug, Clone, Copy, PartialEq, Eq, Structural)]
pub enum AnotherItemType {
    MaskCard(HeroType),
    NotMask(Item),
}

/// What an item does to the hero it is equipped to.
pub open spec fn hero_effect_of(item: AnotherItemType) -> HeroStatusEffect {
    match item {
        AnotherItemType::MaskCard(hero_type) => HeroStatusEffect::Mask(hero_type),
        AnotherItemType::NotMask(item) => match item {
            Item::DecoyDoll => HeroStatusEffect::SacrificeMeInstead,
            Item::ReallyBigRing => HeroStatusEffect::AddToRollForAbility(2),
            Item::ParticularlyRustyCoin => HeroStatusEffect::DrawOnUnsuccessfulRollForAbility(1),
            Item::SealingKey => HeroStatusEffect::RemoveAbility,
            Item::SuspiciouslyShinyCoin => HeroStatusEffect::DiscardOnSuccessfulRollForAbility(1),
            Item::CurseOfTheSnakesEyes => HeroStatusEffect::AddToRollForAbility(-2i32),
        },
    }
}

impl AnotherItemType {
    pub fn label(&self) -> (r: &'static str)
        ensures
            r@ == SlayCardSpec::Item(*self).spec_label(),
    {
        SlayCardSpec::Item(*self).label()
    }

    pub fn hero_effect(&self) -> (r: HeroStatusEffect)
        ensures
            r == hero_effect_of(*self),
    {
        match self {
            AnotherItemType::MaskCard(hero_type) => HeroStatusEffect::Mask(*hero_type),
            AnotherItemType::NotMask(item) => match item {
                Item::DecoyDoll => HeroStatusEffect::SacrificeMeInstead,
                Item::ReallyBigRing => HeroStatusEffect::AddToRollForAbility(2),
                Item::ParticularlyRustyCoin => HeroStatusEffect::DrawOnUnsuccessfulRollForAbility(1),
                Item::SealingKey => HeroStatusEffect::RemoveAbility,
                Item::SuspiciouslyShinyCoin => HeroStatusEffect::DiscardOnSuccessfulRollForAbility(1),
                Item::CurseOfTheSnakesEyes => HeroStatusEffect::AddToRollForAbility(-2i32),
            },
        }
    }

    pub fn hero_effect_entry(&self) -> (r: HeroStatusEffectEntry)
        ensures
            r == (HeroStatusEffectEntry { effect: hero_effect_of(*self), origin: EffectOrigin::FromItem }),
    {
        HeroStatusEffectEntry { effect: self.hero_effect(), origin: EffectOrigin::FromItem }
    }
}

} // verus!
