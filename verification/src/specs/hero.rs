use vstd::prelude::*;

use crate::showdown::consequences::{Comparison, Condition, RollConsequence, RollConsequences};
use crate::specification::HeroType;
use crate::specs::cards::card_type::SlayCardSpec;
use crate::status_effects::effect::PlayerStatusEffect;
use crate::status_effects::effect_entry::EffectOrigin;
use crate::tasks::{
    DestroyModifiersDestination, PlayImmediatelyFilter, PlayerTask, ReceiveDuration, ReceiveModifier,
    SearchDiscardFilters, TaskParamName,
};

verus! {

/// A hero's ability: the roll needed to use it, and what it does.
#[derive(Debug, Clone, Copy, PartialEq, Eq, Structural)]
pub struct HeroAbility {
    pub condition: Condition,
    pub ability: HeroAbilityType,
}

impl HeroAbility {
    /// Using the ability: success when the condition holds, and nothing happens otherwise.
    pub fn to_consequences(&self) -> (r: RollConsequences)
        ensures
            r.success.condition == self.condition,
            r.success.tasks@ == self.ability.spec_tasks(),
            r.loss is None,
    {
        RollConsequences {
            success: RollConsequence { condition: self.condition, tasks: self.ability.create_tasks() },
            loss: None,
        }
    }
}

/// The hero cards.
#[derive(Clone, Debug, Copy, PartialEq, Eq, Structural)]
pub enum HeroAbilityType {
    PlunderingPuma,
    SlipperyPaws,
    SmoothMimimeow,
    Meowzio,
    Shurikitty,
    KitNapper,
    SilentShadow,
    SlyPickings,
    HolyCurselifter,
    IronResolve,
    CalmingVoice,
    VibrantGlow,
    MightyBlade,
    RadiantHorn,
    GuidingLight,
    WiseShield,
    QiBear,
    PanChucks,
    HeavyBear,
    BadAxe,
    ToughTeddy,
    BearClaw,
    FuryKnuckle,
    BearyWise,
    Hook,
    Wildshot,
    SeriousGrey,
    WilyRed,
    QuickDraw,
    LookieRookie,
    Bullseye,
    SharpFox,
    FuzzyCheeks,
    Peanut,
    NappingNibbles,
    TipsyTootie,
    MellowDee,
    LuckBucky,
    DodgyDealer,
    GreedyCheeks,
    Fluffy,
    Wiggles,
    Spooky,
    Snowball,
    Buttons,
    BunBun,
    Hopper,
    Whiskers,
}

impl HeroAbilityType {
    /// The class of the hero.
    pub open spec fn spec_hero_type(self) -> HeroType {
        match self {
            HeroAbilityType::PlunderingPuma => HeroType::Thief,
            HeroAbilityType::SlipperyPaws => HeroType::Thief,
            HeroAbilityType::SmoothMimimeow => HeroType::Thief,
            HeroAbilityType::Meowzio => HeroType::Thief,
            HeroAbilityType::Shurikitty => HeroType::Thief,
            HeroAbilityType::KitNapper => HeroType::Thief,
            HeroAbilityType::SilentShadow => HeroType::Thief,
            HeroAbilityType::SlyPickings => HeroType::Thief,
            HeroAbilityType::HolyCurselifter => HeroType::Gaurdian,
            HeroAbilityType::IronResolve => HeroType::Gaurdian,
            HeroAbilityType::CalmingVoice => HeroType::Gaurdian,
            HeroAbilityType::VibrantGlow => HeroType::Gaurdian,
            HeroAbilityType::MightyBlade => HeroType::Gaurdian,
            HeroAbilityType::RadiantHorn => HeroType::Gaurdian,
            HeroAbilityType::GuidingLight => HeroType::Gaurdian,
            HeroAbilityType::WiseShield => HeroType::Gaurdian,
            HeroAbilityType::QiBear => HeroType::Fighter,
            HeroAbilityType::PanChucks => HeroType::Fighter,
            HeroAbilityType::HeavyBear => HeroType::Fighter,
            HeroAbilityType::BadAxe => HeroType::Fighter,
            HeroAbilityType::ToughTeddy => HeroType::Fighter,
            HeroAbilityType::BearClaw => HeroType::Fighter,
            HeroAbilityType::FuryKnuckle => HeroType::Fighter,
            HeroAbilityType::BearyWise => HeroType::Fighter,
            HeroAbilityType::Hook => HeroType::Ranger,
            HeroAbilityType::Wildshot => HeroType::Ranger,
            HeroAbilityType::SeriousGrey => HeroType::Ranger,
            HeroAbilityType::WilyRed => HeroType::Ranger,
            HeroAbilityType::QuickDraw => HeroType::Ranger,
            HeroAbilityType::LookieRookie => HeroType::Ranger,
            HeroAbilityType::Bullseye => HeroType::Ranger,
            HeroAbilityType::SharpFox => HeroType::Ranger,
            HeroAbilityType::FuzzyCheeks => HeroType::Bard,
            HeroAbilityType::Peanut => HeroType::Bard,
            HeroAbilityType::NappingNibbles => HeroType::Bard,
            HeroAbilityType::TipsyTootie => HeroType::Bard,
            HeroAbilityType::MellowDee => HeroType::Bard,
            HeroAbilityType::LuckBucky => HeroType::Bard,
            HeroAbilityType::DodgyDealer => HeroType::Bard,
            HeroAbilityType::GreedyCheeks => HeroType::Bard,
            HeroAbilityType::Fluffy => HeroType::Wizard,
            HeroAbilityType::Wiggles => HeroType::Wizard,
            HeroAbilityType::Spooky => HeroType::Wizard,
            HeroAbilityType::Snowball => HeroType::Wizard,
            HeroAbilityType::Buttons => HeroType::Wizard,
            HeroAbilityType::BunBun => HeroType::Wizard,
            HeroAbilityType::Hopper => HeroType::Wizard,
            HeroAbilityType::Whiskers => HeroType::Wizard,
        }
    }

    /// The roll needed to use the hero's ability.
    pub open spec fn spec_condition(self) -> Condition {
        match self {
            HeroAbilityType::PlunderingPuma => Condition { comparison: Comparison::GE, threshold: 6 },
            HeroAbilityType::SlipperyPaws => Condition { comparison: Comparison::GE, threshold: 6 },
            HeroAbilityType::SmoothMimimeow => Condition { comparison: Comparison::GE, threshold: 7 },
            HeroAbilityType::Meowzio => Condition { comparison: Comparison::GE, threshold: 10 },
            HeroAbilityType::Shurikitty => Condition { comparison: Comparison::GE, threshold: 9 },
            HeroAbilityType::KitNapper => Condition { comparison: Comparison::GE, threshold: 9 },
            HeroAbilityType::SilentShadow => Condition { comparison: Comparison::GE, threshold: 8 },
            HeroAbilityType::SlyPickings => Condition { comparison: Comparison::GE, threshold: 6 },
            HeroAbilityType::HolyCurselifter => Condition { comparison: Comparison::GE, threshold: 5 },
            HeroAbilityType::IronResolve => Condition { comparison: Comparison::GE, threshold: 8 },
            HeroAbilityType::CalmingVoice => Condition { comparison: Comparison::GE, threshold: 9 },
            HeroAbilityType::VibrantGlow => Condition { comparison: Comparison::GE, threshold: 9 },
            HeroAbilityType::MightyBlade => Condition { comparison: Comparison::GE, threshold: 8 },
            HeroAbilityType::RadiantHorn => Condition { comparison: Comparison::GE, threshold: 6 },
            HeroAbilityType::GuidingLight => Condition { comparison: Comparison::GE, threshold: 7 },
            HeroAbilityType::WiseShield => Condition { comparison: Comparison::GE, threshold: 6 },
            HeroAbilityType::QiBear => Condition { comparison: Comparison::GE, threshold: 10 },
            HeroAbilityType::PanChucks => Condition { comparison: Comparison::GE, threshold: 8 },
            HeroAbilityType::HeavyBear => Condition { comparison: Comparison::GE, threshold: 5 },
            HeroAbilityType::BadAxe => Condition { comparison: Comparison::GE, threshold: 8 },
            HeroAbilityType::ToughTeddy => Condition { comparison: Comparison::GE, threshold: 4 },
            HeroAbilityType::BearClaw => Condition { comparison: Comparison::GE, threshold: 7 },
            HeroAbilityType::FuryKnuckle => Condition { comparison: Comparison::GE, threshold: 5 },
            HeroAbilityType::BearyWise => Condition { comparison: Comparison::GE, threshold: 7 },
            HeroAbilityType::Hook => Condition { comparison: Comparison::GE, threshold: 6 },
            HeroAbilityType::Wildshot => Condition { comparison: Comparison::GE, threshold: 8 },
            HeroAbilityType::SeriousGrey => Condition { comparison: Comparison::GE, threshold: 9 },
            HeroAbilityType::WilyRed => Condition { comparison: Comparison::GE, threshold: 10 },
            HeroAbilityType::QuickDraw => Condition { comparison: Comparison::GE, threshold: 8 },
            HeroAbilityType::LookieRookie => Condition { comparison: Comparison::GE, threshold: 5 },
            HeroAbilityType::Bullseye => Condition { comparison: Comparison::GE, threshold: 7 },
            HeroAbilityType::SharpFox => Condition { comparison: Comparison::GE, threshold: 5 },
            HeroAbilityType::FuzzyCheeks => Condition { comparison: Comparison::GE, threshold: 8 },
            HeroAbilityType::Peanut => Condition { comparison: Comparison::GE, threshold: 7 },
            HeroAbilityType::NappingNibbles => Condition { comparison: Comparison::GE, threshold: 2 },
            HeroAbilityType::TipsyTootie => Condition { comparison: Comparison::GE, threshold: 6 },
            HeroAbilityType::MellowDee => Condition { comparison: Comparison::GE, threshold: 7 },
            HeroAbilityType::LuckBucky => Condition { comparison: Comparison::GE, threshold: 7 },
            HeroAbilityType::DodgyDealer => Condition { comparison: Comparison::GE, threshold: 9 },
            HeroAbilityType::GreedyCheeks => Condition { comparison: Comparison::GE, threshold: 8 },
            HeroAbilityType::Fluffy => Condition { comparison: Comparison::GE, threshold: 10 },
            HeroAbilityType::Wiggles => Condition { comparison: Comparison::GE, threshold: 10 },
            HeroAbilityType::Spooky => Condition { comparison: Comparison::GE, threshold: 10 },
            HeroAbilityType::Snowball => Condition { comparison: Comparison::GE, threshold: 6 },
            HeroAbilityType::Buttons => Condition { comparison: Comparison::GE, threshold: 6 },
            HeroAbilityType::BunBun => Condition { comparison: Comparison::GE, threshold: 5 },
            HeroAbilityType::Hopper => Condition { comparison: Comparison::GE, threshold: 7 },
            HeroAbilityType::Whiskers => Condition { comparison: Comparison::GE, threshold: 11 },
        }
    }

    /// What the hero's ability makes its player do.
    pub open spec fn spec_tasks(self) -> Seq<PlayerTask> {
        match self {
            HeroAbilityType::PlunderingPuma => seq![
                PlayerTask::ChoosePlayer(TaskParamName::PlayerToPullFrom, None),
                PlayerTask::PullFrom(TaskParamName::PlayerToPullFrom),
                PlayerTask::PullFrom(TaskParamName::PlayerToPullFrom),
                PlayerTask::VictimDraws(TaskParamName::PlayerToPullFrom),
                PlayerTask::ClearParams,
            ],
            HeroAbilityType::SlipperyPaws => seq![
                PlayerTask::ChoosePlayer(TaskParamName::SlipperyPawsVictim, None),
                PlayerTask::PullRecord(TaskParamName::SlipperyPawsVictim, TaskParamName::SlipperyPawsVictimPulledCard1),
                PlayerTask::PullRecord(TaskParamName::SlipperyPawsVictim, TaskParamName::SlipperyPawsVictimPulledCard2),
                PlayerTask::SlipperyPaws,
                PlayerTask::ClearParams,
            ],
            HeroAbilityType::SmoothMimimeow => seq![PlayerTask::Mimimeow, PlayerTask::ClearParams],
            HeroAbilityType::Meowzio => seq![
                PlayerTask::ChoosePlayer(TaskParamName::MeowzioVictim, None),
                PlayerTask::PullFrom(TaskParamName::MeowzioVictim),
                PlayerTask::ChooseCardFromParty(TaskParamName::MeowzioVictim, TaskParamName::MeowzioCard, None),
                PlayerTask::StealCardFrom(TaskParamName::MeowzioVictim, TaskParamName::MeowzioCard),
                PlayerTask::ClearParams,
            ],
            HeroAbilityType::Shurikitty => seq![
                PlayerTask::ChoosePlayer(TaskParamName::ShurikittyVictim, None),
                PlayerTask::ChooseCardFromParty(TaskParamName::ShurikittyVictim, TaskParamName::ShurikittyCard, None),
                PlayerTask::DestroyCard(TaskParamName::ShurikittyVictim, TaskParamName::ShurikittyCard, DestroyModifiersDestination::Myself),
                PlayerTask::ClearParams,
            ],
            HeroAbilityType::KitNapper => seq![PlayerTask::Steal],
            HeroAbilityType::SilentShadow => seq![
                PlayerTask::ChoosePlayer(TaskParamName::SilentShadowVictim, None),
                PlayerTask::ChooseCardFromParty(TaskParamName::SilentShadowVictim, TaskParamName::SilentShadowCard, None),
                PlayerTask::ClearParams,
            ],
            HeroAbilityType::SlyPickings => seq![
                PlayerTask::ChoosePlayer(TaskParamName::SlyPickinsVictim, None),
                PlayerTask::PullRecord(TaskParamName::SlyPickinsVictim, TaskParamName::SlyPickinsCard),
                PlayerTask::OfferPlayImmediately(TaskParamName::SlyPickinsCard, PlayImmediatelyFilter::IsItem, 0),
                PlayerTask::ClearParams,
            ],
            HeroAbilityType::HolyCurselifter => seq![PlayerTask::ReturnModifiers],
            HeroAbilityType::IronResolve => seq![
                PlayerTask::ReceiveModifier(ReceiveModifier { modifier: PlayerStatusEffect::NoCardsCanBeChallenged, origin: EffectOrigin::FromHeroAbility, duration: ReceiveDuration::ForThisTurn }),
            ],
            HeroAbilityType::CalmingVoice => seq![
                PlayerTask::ReceiveModifier(ReceiveModifier { modifier: PlayerStatusEffect::NoCardsCanBeStolen, origin: EffectOrigin::FromHeroAbility, duration: ReceiveDuration::UntilNextTurn }),
            ],
            HeroAbilityType::VibrantGlow => seq![
                PlayerTask::ReceiveModifier(ReceiveModifier { modifier: PlayerStatusEffect::AddToAllRolls(5), origin: EffectOrigin::FromHeroAbility, duration: ReceiveDuration::ForThisTurn }),
            ],
            HeroAbilityType::MightyBlade => seq![
                PlayerTask::ReceiveModifier(ReceiveModifier { modifier: PlayerStatusEffect::NoCardsCanBeDestroyed, origin: EffectOrigin::FromHeroAbility, duration: ReceiveDuration::UntilNextTurn }),
            ],
            HeroAbilityType::RadiantHorn => seq![PlayerTask::SearchDiscard(SearchDiscardFilters::IsModifier)],
            HeroAbilityType::GuidingLight => seq![PlayerTask::SearchDiscard(SearchDiscardFilters::IsHero)],
            HeroAbilityType::WiseShield => seq![
                PlayerTask::ReceiveModifier(ReceiveModifier { modifier: PlayerStatusEffect::AddToAllRolls(3), origin: EffectOrigin::FromHeroAbility, duration: ReceiveDuration::ForThisTurn }),
            ],
            HeroAbilityType::QiBear => seq![PlayerTask::QiBear],
            HeroAbilityType::PanChucks => seq![
                PlayerTask::DrawIntoParam(TaskParamName::PanChuckFirstCard),
                PlayerTask::DrawIntoParam(TaskParamName::PanChuckSecondCard),
                PlayerTask::PanChucksDestroy,
                PlayerTask::ClearParams,
            ],
            HeroAbilityType::HeavyBear => seq![
                PlayerTask::ChoosePlayer(TaskParamName::HeavyBearVictim, None),
                PlayerTask::DiscardFromParam(2, TaskParamName::HeavyBearVictim),
                PlayerTask::ClearParams,
            ],
            HeroAbilityType::BadAxe => seq![PlayerTask::Destroy],
            HeroAbilityType::ToughTeddy => seq![PlayerTask::PlayersWithHeroTypeDiscard(HeroType::Fighter)],
            HeroAbilityType::BearClaw => seq![
                PlayerTask::ChoosePlayer(TaskParamName::BearClawVictim, None),
                PlayerTask::PullRecord(TaskParamName::BearClawVictim, TaskParamName::BearClawCard),
                PlayerTask::PullAgain(TaskParamName::BearClawVictim, TaskParamName::BearClawCard, PlayImmediatelyFilter::IsHero),
                PlayerTask::ClearParams,
            ],
            HeroAbilityType::FuryKnuckle => seq![
                PlayerTask::ChoosePlayer(TaskParamName::FuryKnuckleVictim, None),
                PlayerTask::PullRecord(TaskParamName::FuryKnuckleVictim, TaskParamName::FuryKnuckleCard),
                PlayerTask::PullAgain(TaskParamName::FuryKnuckleVictim, TaskParamName::FuryKnuckleCard, PlayImmediatelyFilter::IsChallenge),
                PlayerTask::ClearParams,
            ],
            HeroAbilityType::BearyWise => seq![PlayerTask::BearyWise],
            HeroAbilityType::Hook => seq![PlayerTask::Hook(PlayImmediatelyFilter::IsItem), PlayerTask::Draw(1)],
            HeroAbilityType::Wildshot => seq![PlayerTask::Draw(3), PlayerTask::Discard(1)],
            HeroAbilityType::SeriousGrey => seq![PlayerTask::Destroy, PlayerTask::Draw(1)],
            HeroAbilityType::WilyRed => seq![PlayerTask::DrawUntil(7)],
            HeroAbilityType::QuickDraw => seq![
                PlayerTask::DrawIntoParam(TaskParamName::QuickDrawCard1),
                PlayerTask::DrawIntoParam(TaskParamName::QuickDrawCard2),
                PlayerTask::QuickDrawStyle(TaskParamName::QuickDrawCard1, TaskParamName::QuickDrawCard2, PlayImmediatelyFilter::IsItem),
            ],
            HeroAbilityType::LookieRookie => seq![PlayerTask::SearchDiscard(SearchDiscardFilters::IsItem)],
            HeroAbilityType::Bullseye => seq![PlayerTask::Bullseye],
            HeroAbilityType::SharpFox => seq![
                PlayerTask::ChoosePlayer(TaskParamName::SharpFoxVictim, None),
                PlayerTask::ViewHand(TaskParamName::SharpFoxVictim),
            ],
            HeroAbilityType::FuzzyCheeks => seq![PlayerTask::Draw(1), PlayerTask::PlaceHero],
            HeroAbilityType::Peanut => seq![PlayerTask::Draw(2)],
            HeroAbilityType::NappingNibbles => seq![],
            HeroAbilityType::TipsyTootie => seq![
                PlayerTask::ChoosePlayer(TaskParamName::TipsyTootieVictim, None),
                PlayerTask::ChooseCardFromParty(TaskParamName::TipsyTootieVictim, TaskParamName::TipsyTootieCard, None),
                PlayerTask::StealCardFrom(TaskParamName::TipsyTootieVictim, TaskParamName::TipsyTootieCard),
                PlayerTask::ClearParams,
                PlayerTask::UnstealTo,
            ],
            HeroAbilityType::MellowDee => seq![
                PlayerTask::DrawIntoParam(TaskParamName::MellowDeeCard),
                PlayerTask::OfferPlayImmediately(TaskParamName::MellowDeeCard, PlayImmediatelyFilter::IsHero, 0),
                PlayerTask::ClearParams,
            ],
            HeroAbilityType::LuckBucky => seq![
                PlayerTask::ChoosePlayer(TaskParamName::LuckBuckyVictim, None),
                PlayerTask::PullRecord(TaskParamName::LuckBuckyVictim, TaskParamName::LuckBuckyCard),
                PlayerTask::OfferPlayImmediately(TaskParamName::LuckBuckyCard, PlayImmediatelyFilter::IsHero, 0),
                PlayerTask::ClearParams,
            ],
            HeroAbilityType::DodgyDealer => seq![
                PlayerTask::ChoosePlayer(TaskParamName::DodgyDealerVictim, None),
                PlayerTask::TradeHands(TaskParamName::DodgyDealerVictim),
                PlayerTask::ClearParams,
            ],
            HeroAbilityType::GreedyCheeks => seq![PlayerTask::GreedyCheeks],
            HeroAbilityType::Fluffy => seq![PlayerTask::Destroy, PlayerTask::Destroy],
            HeroAbilityType::Wiggles => seq![
                PlayerTask::ChoosePlayer(TaskParamName::WigglesVictim, None),
                PlayerTask::ChooseCardFromParty(TaskParamName::WigglesVictim, TaskParamName::WigglesCard, None),
                PlayerTask::StealCardFrom(TaskParamName::WigglesVictim, TaskParamName::WigglesCard),
                PlayerTask::OfferPlayImmediately(TaskParamName::WigglesCard, PlayImmediatelyFilter::Anything, 0),
                PlayerTask::ClearParams,
            ],
            HeroAbilityType::Spooky => seq![PlayerTask::Spooky],
            HeroAbilityType::Snowball => seq![
                PlayerTask::DrawIntoParam(TaskParamName::SnowballCard),
                PlayerTask::OfferPlayImmediately(TaskParamName::SnowballCard, PlayImmediatelyFilter::IsMagic, 1),
                PlayerTask::ClearParams,
            ],
            HeroAbilityType::Buttons => seq![
                PlayerTask::ChoosePlayer(TaskParamName::ButtonsVictim, None),
                PlayerTask::PullRecord(TaskParamName::ButtonsVictim, TaskParamName::ButtonsCard),
                PlayerTask::OfferPlayImmediately(TaskParamName::ButtonsCard, PlayImmediatelyFilter::IsMagic, 0),
                PlayerTask::ClearParams,
            ],
            HeroAbilityType::BunBun => seq![PlayerTask::SearchDiscard(SearchDiscardFilters::IsMagic)],
            HeroAbilityType::Hopper => seq![
                PlayerTask::ChoosePlayer(TaskParamName::HopperVictim, None),
                PlayerTask::SacrificeFromParam(TaskParamName::HopperVictim),
                PlayerTask::ClearParams,
            ],
            HeroAbilityType::Whiskers => seq![PlayerTask::Steal, PlayerTask::Destroy],
        }
    }

    pub fn label(&self) -> (r: &'static str)
        ensures
            r@ == SlayCardSpec::HeroCard(*self).spec_label(),
    {
        SlayCardSpec::HeroCard(*self).label()
    }

    pub fn hero_type(&self) -> (r: HeroType)
        ensures
            r == self.spec_hero_type(),
    {
        match self {
            HeroAbilityType::PlunderingPuma => HeroType::Thief,
            HeroAbilityType::SlipperyPaws => HeroType::Thief,
            HeroAbilityType::SmoothMimimeow => HeroType::Thief,
            HeroAbilityType::Meowzio => HeroType::Thief,
            HeroAbilityType::Shurikitty => HeroType::Thief,
            HeroAbilityType::KitNapper => HeroType::Thief,
            HeroAbilityType::SilentShadow => HeroType::Thief,
            HeroAbilityType::SlyPickings => HeroType::Thief,
            HeroAbilityType::HolyCurselifter => HeroType::Gaurdian,
            HeroAbilityType::IronResolve => HeroType::Gaurdian,
            HeroAbilityType::CalmingVoice => HeroType::Gaurdian,
            HeroAbilityType::VibrantGlow => HeroType::Gaurdian,
            HeroAbilityType::MightyBlade => HeroType::Gaurdian,
            HeroAbilityType::RadiantHorn => HeroType::Gaurdian,
            HeroAbilityType::GuidingLight => HeroType::Gaurdian,
            HeroAbilityType::WiseShield => HeroType::Gaurdian,
            HeroAbilityType::QiBear => HeroType::Fighter,
            HeroAbilityType::PanChucks => HeroType::Fighter,
            HeroAbilityType::HeavyBear => HeroType::Fighter,
            HeroAbilityType::BadAxe => HeroType::Fighter,
            HeroAbilityType::ToughTeddy => HeroType::Fighter,
            HeroAbilityType::BearClaw => HeroType::Fighter,
            HeroAbilityType::FuryKnuckle => HeroType::Fighter,
            HeroAbilityType::BearyWise => HeroType::Fighter,
            HeroAbilityType::Hook => HeroType::Ranger,
            HeroAbilityType::Wildshot => HeroType::Ranger,
            HeroAbilityType::SeriousGrey => HeroType::Ranger,
            HeroAbilityType::WilyRed => HeroType::Ranger,
            HeroAbilityType::QuickDraw => HeroType::Ranger,
            HeroAbilityType::LookieRookie => HeroType::Ranger,
            HeroAbilityType::Bullseye => HeroType::Ranger,
            HeroAbilityType::SharpFox => HeroType::Ranger,
            HeroAbilityType::FuzzyCheeks => HeroType::Bard,
            HeroAbilityType::Peanut => HeroType::Bard,
            HeroAbilityType::NappingNibbles => HeroType::Bard,
            HeroAbilityType::TipsyTootie => HeroType::Bard,
            HeroAbilityType::MellowDee => HeroType::Bard,
            HeroAbilityType::LuckBucky => HeroType::Bard,
            HeroAbilityType::DodgyDealer => HeroType::Bard,
            HeroAbilityType::GreedyCheeks => HeroType::Bard,
            HeroAbilityType::Fluffy => HeroType::Wizard,
            HeroAbilityType::Wiggles => HeroType::Wizard,
            HeroAbilityType::Spooky => HeroType::Wizard,
            HeroAbilityType::Snowball => HeroType::Wizard,
            HeroAbilityType::Buttons => HeroType::Wizard,
            HeroAbilityType::BunBun => HeroType::Wizard,
            HeroAbilityType::Hopper => HeroType::Wizard,
            HeroAbilityType::Whiskers => HeroType::Wizard,
        }
    }

    /// The consequences of rolling to use the ability.
    pub fn to_consequences(&self) -> (r: RollConsequences)
        ensures
            r.success.condition == self.spec_condition(),
            r.success.tasks@ == self.spec_tasks(),
            r.loss is None,
    {
        let ability = HeroAbility { condition: self.condition(), ability: *self };
        ability.to_consequences()
    }

    pub fn create_tasks(&self) -> (r: Vec<PlayerTask>)
        ensures
            r@ == self.spec_tasks(),
    {
        match self {
            HeroAbilityType::PlunderingPuma => vec![
                PlayerTask::ChoosePlayer(TaskParamName::PlayerToPullFrom, None),
                PlayerTask::PullFrom(TaskParamName::PlayerToPullFrom),
                PlayerTask::PullFrom(TaskParamName::PlayerToPullFrom),
                PlayerTask::VictimDraws(TaskParamName::PlayerToPullFrom),
                PlayerTask::ClearParams,
            ],
            HeroAbilityType::SlipperyPaws => vec![
                PlayerTask::ChoosePlayer(TaskParamName::SlipperyPawsVictim, None),
                PlayerTask::PullRecord(TaskParamName::SlipperyPawsVictim, TaskParamName::SlipperyPawsVictimPulledCard1),
                PlayerTask::PullRecord(TaskParamName::SlipperyPawsVictim, TaskParamName::SlipperyPawsVictimPulledCard2),
                PlayerTask::SlipperyPaws,
                PlayerTask::ClearParams,
            ],
            HeroAbilityType::SmoothMimimeow => vec![PlayerTask::Mimimeow, PlayerTask::ClearParams],
            HeroAbilityType::Meowzio => vec![
                PlayerTask::ChoosePlayer(TaskParamName::MeowzioVictim, None),
                PlayerTask::PullFrom(TaskParamName::MeowzioVictim),
                PlayerTask::ChooseCardFromParty(TaskParamName::MeowzioVictim, TaskParamName::MeowzioCard, None),
                PlayerTask::StealCardFrom(TaskParamName::MeowzioVictim, TaskParamName::MeowzioCard),
                PlayerTask::ClearParams,
            ],
            HeroAbilityType::Shurikitty => vec![
                PlayerTask::ChoosePlayer(TaskParamName::ShurikittyVictim, None),
                PlayerTask::ChooseCardFromParty(TaskParamName::ShurikittyVictim, TaskParamName::ShurikittyCard, None),
                PlayerTask::DestroyCard(TaskParamName::ShurikittyVictim, TaskParamName::ShurikittyCard, DestroyModifiersDestination::Myself),
                PlayerTask::ClearParams,
            ],
            HeroAbilityType::KitNapper => vec![PlayerTask::Steal],
            HeroAbilityType::SilentShadow => vec![
                PlayerTask::ChoosePlayer(TaskParamName::SilentShadowVictim, None),
                PlayerTask::ChooseCardFromParty(TaskParamName::SilentShadowVictim, TaskParamName::SilentShadowCard, None),
                PlayerTask::ClearParams,
            ],
            HeroAbilityType::SlyPickings => vec![
                PlayerTask::ChoosePlayer(TaskParamName::SlyPickinsVictim, None),
                PlayerTask::PullRecord(TaskParamName::SlyPickinsVictim, TaskParamName::SlyPickinsCard),
                PlayerTask::OfferPlayImmediately(TaskParamName::SlyPickinsCard, PlayImmediatelyFilter::IsItem, 0),
                PlayerTask::ClearParams,
            ],
            HeroAbilityType::HolyCurselifter => vec![PlayerTask::ReturnModifiers],
            HeroAbilityType::IronResolve => vec![
                PlayerTask::ReceiveModifier(ReceiveModifier { modifier: PlayerStatusEffect::NoCardsCanBeChallenged, origin: EffectOrigin::FromHeroAbility, duration: ReceiveDuration::ForThisTurn }),
            ],
            HeroAbilityType::CalmingVoice => vec![
                PlayerTask::ReceiveModifier(ReceiveModifier { modifier: PlayerStatusEffect::NoCardsCanBeStolen, origin: EffectOrigin::FromHeroAbility, duration: ReceiveDuration::UntilNextTurn }),
            ],
            HeroAbilityType::VibrantGlow => vec![
                PlayerTask::ReceiveModifier(ReceiveModifier { modifier: PlayerStatusEffect::AddToAllRolls(5), origin: EffectOrigin::FromHeroAbility, duration: ReceiveDuration::ForThisTurn }),
            ],
            HeroAbilityType::MightyBlade => vec![
                PlayerTask::ReceiveModifier(ReceiveModifier { modifier: PlayerStatusEffect::NoCardsCanBeDestroyed, origin: EffectOrigin::FromHeroAbility, duration: ReceiveDuration::UntilNextTurn }),
            ],
            HeroAbilityType::RadiantHorn => vec![PlayerTask::SearchDiscard(SearchDiscardFilters::IsModifier)],
            HeroAbilityType::GuidingLight => vec![PlayerTask::SearchDiscard(SearchDiscardFilters::IsHero)],
            HeroAbilityType::WiseShield => vec![
                PlayerTask::ReceiveModifier(ReceiveModifier { modifier: PlayerStatusEffect::AddToAllRolls(3), origin: EffectOrigin::FromHeroAbility, duration: ReceiveDuration::ForThisTurn }),
            ],
            HeroAbilityType::QiBear => vec![PlayerTask::QiBear],
            HeroAbilityType::PanChucks => vec![
                PlayerTask::DrawIntoParam(TaskParamName::PanChuckFirstCard),
                PlayerTask::DrawIntoParam(TaskParamName::PanChuckSecondCard),
                PlayerTask::PanChucksDestroy,
                PlayerTask::ClearParams,
            ],
            HeroAbilityType::HeavyBear => vec![
                PlayerTask::ChoosePlayer(TaskParamName::HeavyBearVictim, None),
                PlayerTask::DiscardFromParam(2, TaskParamName::HeavyBearVictim),
                PlayerTask::ClearParams,
            ],
            HeroAbilityType::BadAxe => vec![PlayerTask::Destroy],
            HeroAbilityType::ToughTeddy => vec![PlayerTask::PlayersWithHeroTypeDiscard(HeroType::Fighter)],
            HeroAbilityType::BearClaw => vec![
                PlayerTask::ChoosePlayer(TaskParamName::BearClawVictim, None),
                PlayerTask::PullRecord(TaskParamName::BearClawVictim, TaskParamName::BearClawCard),
                PlayerTask::PullAgain(TaskParamName::BearClawVictim, TaskParamName::BearClawCard, PlayImmediatelyFilter::IsHero),
                PlayerTask::ClearParams,
            ],
            HeroAbilityType::FuryKnuckle => vec![
                PlayerTask::ChoosePlayer(TaskParamName::FuryKnuckleVictim, None),
                PlayerTask::PullRecord(TaskParamName::FuryKnuckleVictim, TaskParamName::FuryKnuckleCard),
                PlayerTask::PullAgain(TaskParamName::FuryKnuckleVictim, TaskParamName::FuryKnuckleCard, PlayImmediatelyFilter::IsChallenge),
                PlayerTask::ClearParams,
            ],
            HeroAbilityType::BearyWise => vec![PlayerTask::BearyWise],
            HeroAbilityType::Hook => vec![PlayerTask::Hook(PlayImmediatelyFilter::IsItem), PlayerTask::Draw(1)],
            HeroAbilityType::Wildshot => vec![PlayerTask::Draw(3), PlayerTask::Discard(1)],
            HeroAbilityType::SeriousGrey => vec![PlayerTask::Destroy, PlayerTask::Draw(1)],
            HeroAbilityType::WilyRed => vec![PlayerTask::DrawUntil(7)],
            HeroAbilityType::QuickDraw => vec![
                PlayerTask::DrawIntoParam(TaskParamName::QuickDrawCard1),
                PlayerTask::DrawIntoParam(TaskParamName::QuickDrawCard2),
                PlayerTask::QuickDrawStyle(TaskParamName::QuickDrawCard1, TaskParamName::QuickDrawCard2, PlayImmediatelyFilter::IsItem),
            ],
            HeroAbilityType::LookieRookie => vec![PlayerTask::SearchDiscard(SearchDiscardFilters::IsItem)],
            HeroAbilityType::Bullseye => vec![PlayerTask::Bullseye],
            HeroAbilityType::SharpFox => vec![
                PlayerTask::ChoosePlayer(TaskParamName::SharpFoxVictim, None),
                PlayerTask::ViewHand(TaskParamName::SharpFoxVictim),
            ],
            HeroAbilityType::FuzzyCheeks => vec![PlayerTask::Draw(1), PlayerTask::PlaceHero],
            HeroAbilityType::Peanut => vec![PlayerTask::Draw(2)],
            HeroAbilityType::NappingNibbles => vec![],
            HeroAbilityType::TipsyTootie => vec![
                PlayerTask::ChoosePlayer(TaskParamName::TipsyTootieVictim, None),
                PlayerTask::ChooseCardFromParty(TaskParamName::TipsyTootieVictim, TaskParamName::TipsyTootieCard, None),
                PlayerTask::StealCardFrom(TaskParamName::TipsyTootieVictim, TaskParamName::TipsyTootieCard),
                PlayerTask::ClearParams,
                PlayerTask::UnstealTo,
            ],
            HeroAbilityType::MellowDee => vec![
                PlayerTask::DrawIntoParam(TaskParamName::MellowDeeCard),
                PlayerTask::OfferPlayImmediately(TaskParamName::MellowDeeCard, PlayImmediatelyFilter::IsHero, 0),
                PlayerTask::ClearParams,
            ],
            HeroAbilityType::LuckBucky => vec![
                PlayerTask::ChoosePlayer(TaskParamName::LuckBuckyVictim, None),
                PlayerTask::PullRecord(TaskParamName::LuckBuckyVictim, TaskParamName::LuckBuckyCard),
                PlayerTask::OfferPlayImmediately(TaskParamName::LuckBuckyCard, PlayImmediatelyFilter::IsHero, 0),
                PlayerTask::ClearParams,
            ],
            HeroAbilityType::DodgyDealer => vec![
                PlayerTask::ChoosePlayer(TaskParamName::DodgyDealerVictim, None),
                PlayerTask::TradeHands(TaskParamName::DodgyDealerVictim),
                PlayerTask::ClearParams,
            ],
            HeroAbilityType::GreedyCheeks => vec![PlayerTask::GreedyCheeks],
            HeroAbilityType::Fluffy => vec![PlayerTask::Destroy, PlayerTask::Destroy],
            HeroAbilityType::Wiggles => vec![
                PlayerTask::ChoosePlayer(TaskParamName::WigglesVictim, None),
                PlayerTask::ChooseCardFromParty(TaskParamName::WigglesVictim, TaskParamName::WigglesCard, None),
                PlayerTask::StealCardFrom(TaskParamName::WigglesVictim, TaskParamName::WigglesCard),
                PlayerTask::OfferPlayImmediately(TaskParamName::WigglesCard, PlayImmediatelyFilter::Anything, 0),
                PlayerTask::ClearParams,
            ],
            HeroAbilityType::Spooky => vec![PlayerTask::Spooky],
            HeroAbilityType::Snowball => vec![
                PlayerTask::DrawIntoParam(TaskParamName::SnowballCard),
                PlayerTask::OfferPlayImmediately(TaskParamName::SnowballCard, PlayImmediatelyFilter::IsMagic, 1),
                PlayerTask::ClearParams,
            ],
            HeroAbilityType::Buttons => vec![
                PlayerTask::ChoosePlayer(TaskParamName::ButtonsVictim, None),
                PlayerTask::PullRecord(TaskParamName::ButtonsVictim, TaskParamName::ButtonsCard),
                PlayerTask::OfferPlayImmediately(TaskParamName::ButtonsCard, PlayImmediatelyFilter::IsMagic, 0),
                PlayerTask::ClearParams,
            ],
            HeroAbilityType::BunBun => vec![PlayerTask::SearchDiscard(SearchDiscardFilters::IsMagic)],
            HeroAbilityType::Hopper => vec![
                PlayerTask::ChoosePlayer(TaskParamName::HopperVictim, None),
                PlayerTask::SacrificeFromParam(TaskParamName::HopperVictim),
                PlayerTask::ClearParams,
            ],
            HeroAbilityType::Whiskers => vec![PlayerTask::Steal, PlayerTask::Destroy],
        }
    }

    pub fn condition(&self) -> (r: Condition)
        ensures
            r == self.spec_condition(),
    {
        match self {
            HeroAbilityType::PlunderingPuma => Condition::ge(6),
            HeroAbilityType::SlipperyPaws => Condition::ge(6),
            HeroAbilityType::SmoothMimimeow => Condition::ge(7),
            HeroAbilityType::Meowzio => Condition::ge(10),
            HeroAbilityType::Shurikitty => Condition::ge(9),
            HeroAbilityType::KitNapper => Condition::ge(9),
            HeroAbilityType::SilentShadow => Condition::ge(8),
            HeroAbilityType::SlyPickings => Condition::ge(6),
            HeroAbilityType::HolyCurselifter => Condition::ge(5),
            HeroAbilityType::IronResolve => Condition::ge(8),
            HeroAbilityType::CalmingVoice => Condition::ge(9),
            HeroAbilityType::VibrantGlow => Condition::ge(9),
            HeroAbilityType::MightyBlade => Condition::ge(8),
            HeroAbilityType::RadiantHorn => Condition::ge(6),
            HeroAbilityType::GuidingLight => Condition::ge(7),
            HeroAbilityType::WiseShield => Condition::ge(6),
            HeroAbilityType::QiBear => Condition::ge(10),
            HeroAbilityType::PanChucks => Condition::ge(8),
            HeroAbilityType::HeavyBear => Condition::ge(5),
            HeroAbilityType::BadAxe => Condition::ge(8),
            HeroAbilityType::ToughTeddy => Condition::ge(4),
            HeroAbilityType::BearClaw => Condition::ge(7),
            HeroAbilityType::FuryKnuckle => Condition::ge(5),
            HeroAbilityType::BearyWise => Condition::ge(7),
            HeroAbilityType::Hook => Condition::ge(6),
            HeroAbilityType::Wildshot => Condition::ge(8),
            HeroAbilityType::SeriousGrey => Condition::ge(9),
            HeroAbilityType::WilyRed => Condition::ge(10),
            HeroAbilityType::QuickDraw => Condition::ge(8),
            HeroAbilityType::LookieRookie => Condition::ge(5),
            HeroAbilityType::Bullseye => Condition::ge(7),
            HeroAbilityType::SharpFox => Condition::ge(5),
            HeroAbilityType::FuzzyCheeks => Condition::ge(8),
            HeroAbilityType::Peanut => Condition::ge(7),
            HeroAbilityType::NappingNibbles => Condition::ge(2),
            HeroAbilityType::TipsyTootie => Condition::ge(6),
            HeroAbilityType::MellowDee => Condition::ge(7),
            HeroAbilityType::LuckBucky => Condition::ge(7),
            HeroAbilityType::DodgyDealer => Condition::ge(9),
            HeroAbilityType::GreedyCheeks => Condition::ge(8),
            HeroAbilityType::Fluffy => Condition::ge(10),
            HeroAbilityType::Wiggles => Condition::ge(10),
            HeroAbilityType::Spooky => Condition::ge(10),
            HeroAbilityType::Snowball => Condition::ge(6),
            HeroAbilityType::Buttons => Condition::ge(6),
            HeroAbilityType::BunBun => Condition::ge(5),
            HeroAbilityType::Hopper => Condition::ge(7),
            HeroAbilityType::Whiskers => Condition::ge(11),
        }
    }

    pub fn consequences(&self) -> (r: RollConsequences)
        ensures
            r.success.condition == self.spec_condition(),
            r.success.tasks@ == self.spec_tasks(),
            r.loss is None,
    {
        RollConsequences {
            success: RollConsequence { condition: self.condition(), tasks: self.create_tasks() },
            loss: None,
        }
    }
}

} // verus!
