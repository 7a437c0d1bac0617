use vstd::prelude::*;

use crate::specification::GameVersion;
use crate::specs::cards::card_type::SlayCardSpec;
use crate::specs::items::AnotherItemType;

verus! {

impl SlayCardSpec {
    /// The edition the card comes from: every card of this game is from the original edition.
    pub fn game_version(&self) -> (r: GameVersion)
        ensures
            r == GameVersion::Original,
    {
        match self {
            SlayCardSpec::HeroCard(hero_card) => hero_card.hero_type().game_version(),
            SlayCardSpec::MonsterCard(_monster) => GameVersion::Original,
            SlayCardSpec::MagicCard(_spell) => GameVersion::Original,
            SlayCardSpec::ModifierCard(_modifier_kind) => GameVersion::Original,
            SlayCardSpec::Item(item_card) => match item_card {
                AnotherItemType::MaskCard(hero_type) => hero_type.game_version(),
                AnotherItemType::NotMask(_item) => GameVersion::Original,
            },
            SlayCardSpec::Challenge => GameVersion::Original,
            SlayCardSpec::PartyLeader(hero_type) => hero_type.game_version(),
        }
    }
}

} // verus!
