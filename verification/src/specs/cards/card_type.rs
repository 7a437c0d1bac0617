use vstd::prelude::*;

use crate::specification::HeroType;
use crate::specs::hero::HeroAbilityType;
use crate::specs::items::AnotherItemType;
use crate::specs::magic::MagicSpell;
use crate::specs::modifier::ModifierKinds;
use crate::specs::monster::Monster;

verus! {

#[derive(Debug, Clone, Copy, PartialEq, Eq, Structural)]
pub enum ChallengeType {
    Standard,
    Warrior,
}

/// Which card a card is.
#[derive(Debug, Clone, Copy, PartialEq, Eq, Structural)]
pub enum SlayCardSpec {
    HeroCard(HeroAbilityType),
    PartyLeader(HeroType),
    MonsterCard(Monster),
    MagicCard(MagicSpell),
    ModifierCard(ModifierKinds),
    Item(AnotherItemType),
    Challenge,
}

impl SlayCardSpec {
    pub open spec fn spec_hero_type(self) -> Option<HeroType> {
        match self {
            SlayCardSpec::HeroCard(hero_card) => Some(hero_card.spec_hero_type()),
            SlayCardSpec::PartyLeader(hero_type) => Some(hero_type),
            _ => None,
        }
    }

    /// The class of a hero or party leader card.
    pub fn hero_type(&self) -> (r: Option<HeroType>)
        ensures
            r == self.spec_hero_type(),
    {
        match self {
            SlayCardSpec::HeroCard(hero_card) => Some(hero_card.hero_type()),
            SlayCardSpec::PartyLeader(hero_type) => Some(*hero_type),
            _ => None,
        }
    }
}

} // verus!
