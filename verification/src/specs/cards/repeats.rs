use vstd::prelude::*;

use crate::specs::cards::card_type::SlayCardSpec;
use crate::specs::items::{AnotherItemType, Item};
use crate::specs::magic::MagicSpell;
use crate::specs::modifier::ModifierKinds;

verus! {

impl SlayCardSpec {
    /// How many copies of the card the game has.
    pub open spec fn spec_repeat(self) -> u32 {
        match self {
            SlayCardSpec::HeroCard(_) | SlayCardSpec::PartyLeader(_) | SlayCardSpec::MonsterCard(_) => 1,
            SlayCardSpec::MagicCard(spell) => match spell {
                MagicSpell::EnganglingTrap
                | MagicSpell::CriticalBoost
                | MagicSpell::DestructiveSpell
                | MagicSpell::WindsOfChange
                | MagicSpell::EnchangedSpell => 2,
                MagicSpell::ForcedExchange | MagicSpell::ForcefulWinds | MagicSpell::CallToTheFallen => 1,
            },
            SlayCardSpec::ModifierCard(modifier_kind) => match modifier_kind {
                ModifierKinds::Plus4 => 4,
                ModifierKinds::Plus3Minus1 => 4,
                ModifierKinds::Plus2Minus2 => 9,
                ModifierKinds::Plus1Minus3 => 4,
                ModifierKinds::Minus4 => 4,
            },
            SlayCardSpec::Item(item_card) => match item_card {
                AnotherItemType::MaskCard(_) => 1,
                AnotherItemType::NotMask(item) => match item {
                    Item::DecoyDoll => 1,
                    Item::ReallyBigRing => 2,
                    Item::ParticularlyRustyCoin => 2,
                    Item::SealingKey => 1,
                    Item::SuspiciouslyShinyCoin => 1,
                    Item::CurseOfTheSnakesEyes => 2,
                },
            },
            SlayCardSpec::Challenge => 8,
        }
    }

    pub fn repeat(&self) -> (r: u32)
        ensures
            r == self.spec_repeat(),
    {
        match self {
            SlayCardSpec::HeroCard(_) | SlayCardSpec::PartyLeader(_) | SlayCardSpec::MonsterCard(_) => 1,
            SlayCardSpec::MagicCard(spell) => match spell {
                MagicSpell::EnganglingTrap
                | MagicSpell::CriticalBoost
                | MagicSpell::DestructiveSpell
                | MagicSpell::WindsOfChange
                | MagicSpell::EnchangedSpell => 2,
                MagicSpell::ForcedExchange | MagicSpell::ForcefulWinds | MagicSpell::CallToTheFallen => 1,
            },
            SlayCardSpec::ModifierCard(modifier_kind) => match modifier_kind {
                ModifierKinds::Plus4 => 4,
                ModifierKinds::Plus3Minus1 => 4,
                ModifierKinds::Plus2Minus2 => 9,
                ModifierKinds::Plus1Minus3 => 4,
                ModifierKinds::Minus4 => 4,
            },
            SlayCardSpec::Item(item_card) => match item_card {
                AnotherItemType::MaskCard(_) => 1,
                AnotherItemType::NotMask(item) => match item {
                    Item::DecoyDoll => 1,
                    Item::ReallyBigRing => 2,
                    Item::ParticularlyRustyCoin => 2,
                    Item::SealingKey => 1,
                    Item::SuspiciouslyShinyCoin => 1,
                    Item::CurseOfTheSnakesEyes => 2,
                },
            },
            SlayCardSpec::Challenge => 8,
        }
    }
}

} // verus!
