use vstd::prelude::*;

use crate::showdown::consequences::{Comparison, Condition};
use crate::specification::{default_card_spec_view, initial_deck, CardSpec, CardSpecView, CardType, HeroAbility, HeroType, ItemType};
use crate::state::deck::DeckPath;
use crate::specs::cards::card_type::SlayCardSpec;
use crate::specs::hero::HeroAbilityType;
use crate::specs::items::{AnotherItemType, Item};
use crate::specs::magic::MagicSpell;
use crate::specs::modifier::ModifierKinds;
use crate::specs::monster::Monster;
use crate::status_effects::effect::HeroStatusEffect;

verus! {

/// The specification of each hero card.
pub open spec fn hero_card_spec_view(hero: HeroAbilityType) -> CardSpecView {
    match hero {
            HeroAbilityType::PlunderingPuma => CardSpecView {
                card_type: CardType::Hero(HeroType::Thief),
                repeat: 1,
                label: "Plundering Puma"@,
                description: "Pull 2 cards from another player's hand. That player may DRAW a card."@,
                image_path: "cards/heros/thief/plundering_puma.jpg"@,
                monster: None,
                modifiers: Seq::empty(),
                hero_ability: Some(HeroAbility { condition: Condition { comparison: Comparison::GE, threshold: 6 }, ability: HeroAbilityType::PlunderingPuma }),
                spell: None,
                card_modifier: None,
                real_spec: SlayCardSpec::Challenge,
            },
            HeroAbilityType::SlipperyPaws => CardSpecView {
                card_type: CardType::Hero(HeroType::Thief),
                repeat: 1,
                label: "Slippery Paws"@,
                description: "Pull 2 cards from another player's hand, then DISCARD one of those cards."@,
                image_path: "cards/heros/thief/slippery_paws.jpg"@,
                monster: None,
                modifiers: Seq::empty(),
                hero_ability: Some(HeroAbility { condition: Condition { comparison: Comparison::GE, threshold: 6 }, ability: HeroAbilityType::SlipperyPaws }),
                spell: None,
                card_modifier: None,
                real_spec: SlayCardSpec::Challenge,
            },
            HeroAbilityType::SmoothMimimeow => CardSpecView {
                card_type: CardType::Hero(HeroType::Thief),
                repeat: 1,
                label: "Smooth Mimimeow"@,
                description: "Pull a card from the hand of each other player with a Thief in their Party."@,
                image_path: "cards/heros/thief/smooth_mimimeow.jpg"@,
                monster: None,
                modifiers: Seq::empty(),
                hero_ability: Some(HeroAbility { condition: Condition { comparison: Comparison::GE, threshold: 7 }, ability: HeroAbilityType::SmoothMimimeow }),
                spell: None,
                card_modifier: None,
                real_spec: SlayCardSpec::Challenge,
            },
            HeroAbilityType::Meowzio => CardSpecView {
                card_type: CardType::Hero(HeroType::Thief),
                repeat: 1,
                label: "Meowzio"@,
                description: "Choose a player. STEAL a Hero card from that player's Party and pull a card from that player's hand."@,
                image_path: "cards/heros/thief/meowzio.jpg"@,
                monster: None,
                modifiers: Seq::empty(),
                hero_ability: Some(HeroAbility { condition: Condition { comparison: Comparison::GE, threshold: 10 }, ability: HeroAbilityType::Meowzio }),
                spell: None,
                card_modifier: None,
                real_spec: SlayCardSpec::Challenge,
            },
            HeroAbilityType::Shurikitty => CardSpecView {
                card_type: CardType::Hero(HeroType::Thief),
                repeat: 1,
                label: "Shurikitty"@,
                description: "DESTROY a Hero card. If that Hero card had an item card equipped to it, add that Item card to your hand instead of moving it to the discard pile."@,
                image_path: "cards/heros/thief/shurikitty.jpg"@,
                monster: None,
                modifiers: Seq::empty(),
                hero_ability: Some(HeroAbility { condition: Condition { comparison: Comparison::GE, threshold: 9 }, ability: HeroAbilityType::Shurikitty }),
                spell: None,
                card_modifier: None,
                real_spec: SlayCardSpec::Challenge,
            },
            HeroAbilityType::KitNapper => CardSpecView {
                card_type: CardType::Hero(HeroType::Thief),
                repeat: 1,
                label: "Kit Napper"@,
                description: "Steal a Hero card."@,
                image_path: "cards/heros/thief/kit_napper.jpg"@,
                monster: None,
                modifiers: Seq::empty(),
                hero_ability: Some(HeroAbility { condition: Condition { comparison: Comparison::GE, threshold: 9 }, ability: HeroAbilityType::KitNapper }),
                spell: None,
                card_modifier: None,
                real_spec: SlayCardSpec::Challenge,
            },
            HeroAbilityType::SilentShadow => CardSpecView {
                card_type: CardType::Hero(HeroType::Thief),
                repeat: 1,
                label: "Silent Shadow"@,
                description: "Look at another player's hand. Choose a card and add it to your hand."@,
                image_path: "cards/heros/thief/silent_shadow.jpg"@,
                monster: None,
                modifiers: Seq::empty(),
                hero_ability: Some(HeroAbility { condition: Condition { comparison: Comparison::GE, threshold: 8 }, ability: HeroAbilityType::SilentShadow }),
                spell: None,
                card_modifier: None,
                real_spec: SlayCardSpec::Challenge,
            },
            HeroAbilityType::SlyPickings => CardSpecView {
                card_type: CardType::Hero(HeroType::Thief),
                repeat: 1,
                label: "Sly Pickings"@,
                description: "Pull a card from another player's hand. If that card is an Item card, you may play it immediately."@,
                image_path: "cards/heros/thief/sly_pickings.jpg"@,
                monster: None,
                modifiers: Seq::empty(),
                hero_ability: Some(HeroAbility { condition: Condition { comparison: Comparison::GE, threshold: 6 }, ability: HeroAbilityType::SlyPickings }),
                spell: None,
                card_modifier: None,
                real_spec: SlayCardSpec::Challenge,
            },
            HeroAbilityType::HolyCurselifter => CardSpecView {
                card_type: CardType::Hero(HeroType::Gaurdian),
                repeat: 1,
                label: "Holy Curselifter"@,
                description: "Return a Cursed Item card equipped to a Hero card in your Party to your hand."@,
                image_path: "cards/heros/guardian/holy_curse_lifter.jpg"@,
                monster: None,
                modifiers: Seq::empty(),
                hero_ability: Some(HeroAbility { condition: Condition { comparison: Comparison::GE, threshold: 5 }, ability: HeroAbilityType::HolyCurselifter }),
                spell: None,
                card_modifier: None,
                real_spec: SlayCardSpec::Challenge,
            },
            HeroAbilityType::IronResolve => CardSpecView {
                card_type: CardType::Hero(HeroType::Gaurdian),
                repeat: 1,
                label: "Iron Resolve"@,
                description: "Cards you play cannot be challenged for the rest of your turn."@,
                image_path: "cards/heros/guardian/iron_resolve.jpg"@,
                monster: None,
                modifiers: Seq::empty(),
                hero_ability: Some(HeroAbility { condition: Condition { comparison: Comparison::GE, threshold: 8 }, ability: HeroAbilityType::IronResolve }),
                spell: None,
                card_modifier: None,
                real_spec: SlayCardSpec::Challenge,
            },
            HeroAbilityType::CalmingVoice => CardSpecView {
                card_type: CardType::Hero(HeroType::Gaurdian),
                repeat: 1,
                label: "Calming Voice"@,
                description: "Hero cards in your Party cannot be stolen until your next turn."@,
                image_path: "cards/heros/guardian/calming_voice.jpg"@,
                monster: None,
                modifiers: Seq::empty(),
                hero_ability: Some(HeroAbility { condition: Condition { comparison: Comparison::GE, threshold: 9 }, ability: HeroAbilityType::CalmingVoice }),
                spell: None,
                card_modifier: None,
                real_spec: SlayCardSpec::Challenge,
            },
            HeroAbilityType::VibrantGlow => CardSpecView {
                card_type: CardType::Hero(HeroType::Gaurdian),
                repeat: 1,
                label: "Vibrant Glow"@,
                description: "+5 to all of your rolls until the end of your turn."@,
                image_path: "cards/heros/guardian/vibrant_glow.jpg"@,
                monster: None,
                modifiers: Seq::empty(),
                hero_ability: Some(HeroAbility { condition: Condition { comparison: Comparison::GE, threshold: 9 }, ability: HeroAbilityType::VibrantGlow }),
                spell: None,
                card_modifier: None,
                real_spec: SlayCardSpec::Challenge,
            },
            HeroAbilityType::MightyBlade => CardSpecView {
                card_type: CardType::Hero(HeroType::Gaurdian),
                repeat: 1,
                label: "Mighty Blade"@,
                description: "Hero cards in your Party cannot be destroyed until your next turn."@,
                image_path: "cards/heros/guardian/mighty_blade.jpg"@,
                monster: None,
                modifiers: Seq::empty(),
                hero_ability: Some(HeroAbility { condition: Condition { comparison: Comparison::GE, threshold: 8 }, ability: HeroAbilityType::MightyBlade }),
                spell: None,
                card_modifier: None,
                real_spec: SlayCardSpec::Challenge,
            },
            HeroAbilityType::RadiantHorn => CardSpecView {
                card_type: CardType::Hero(HeroType::Gaurdian),
                repeat: 1,
                label: "Radiant Horn"@,
                description: "Search the discard pile for a Modifier card and add it to your hand."@,
                image_path: "cards/heros/guardian/radiant_horn.jpg"@,
                monster: None,
                modifiers: Seq::empty(),
                hero_ability: Some(HeroAbility { condition: Condition { comparison: Comparison::GE, threshold: 6 }, ability: HeroAbilityType::RadiantHorn }),
                spell: None,
                card_modifier: None,
                real_spec: SlayCardSpec::Challenge,
            },
            HeroAbilityType::GuidingLight => CardSpecView {
                card_type: CardType::Hero(HeroType::Gaurdian),
                repeat: 1,
                label: "Guiding Light"@,
                description: "Search the discard pile for a Hero card and add it to your hand."@,
                image_path: "cards/heros/guardian/guiding_light.jpg"@,
                monster: None,
                modifiers: Seq::empty(),
                hero_ability: Some(HeroAbility { condition: Condition { comparison: Comparison::GE, threshold: 7 }, ability: HeroAbilityType::GuidingLight }),
                spell: None,
                card_modifier: None,
                real_spec: SlayCardSpec::Challenge,
            },
            HeroAbilityType::WiseShield => CardSpecView {
                card_type: CardType::Hero(HeroType::Gaurdian),
                repeat: 1,
                label: "Wise Shield"@,
                description: "+3 to all of your rolls until the end of your turn."@,
                image_path: "cards/heros/guardian/wise_shield.jpg"@,
                monster: None,
                modifiers: Seq::empty(),
                hero_ability: Some(HeroAbility { condition: Condition { comparison: Comparison::GE, threshold: 6 }, ability: HeroAbilityType::WiseShield }),
                spell: None,
                card_modifier: None,
                real_spec: SlayCardSpec::Challenge,
            },
            HeroAbilityType::QiBear => CardSpecView {
                card_type: CardType::Hero(HeroType::Fighter),
                repeat: 1,
                label: "Qi Bear"@,
                description: "DISCARD up to 3 cards. For each card discarded, DESTROY a Hero card."@,
                image_path: "cards/heros/fighter/chi_bear.jpg"@,
                monster: None,
                modifiers: Seq::empty(),
                hero_ability: Some(HeroAbility { condition: Condition { comparison: Comparison::GE, threshold: 10 }, ability: HeroAbilityType::QiBear }),
                spell: None,
                card_modifier: None,
                real_spec: SlayCardSpec::Challenge,
            },
            HeroAbilityType::PanChucks => CardSpecView {
                card_type: CardType::Hero(HeroType::Fighter),
                repeat: 1,
                label: "Pan Chucks"@,
                description: "DRAW 2 cards. If at least one of those cards is a Challenge card, you may reveal it, then DESTROY a Hero card."@,
                image_path: "cards/heros/fighter/pan_chucks.jpg"@,
                monster: None,
                modifiers: Seq::empty(),
                hero_ability: Some(HeroAbility { condition: Condition { comparison: Comparison::GE, threshold: 8 }, ability: HeroAbilityType::PanChucks }),
                spell: None,
                card_modifier: None,
                real_spec: SlayCardSpec::Challenge,
            },
            HeroAbilityType::HeavyBear => CardSpecView {
                card_type: CardType::Hero(HeroType::Fighter),
                repeat: 1,
                label: "Heavy Bear"@,
                description: "Choose a player. That player must DISCARD 2 cards."@,
                image_path: "cards/heros/fighter/heavy_bear.jpg"@,
                monster: None,
                modifiers: Seq::empty(),
                hero_ability: Some(HeroAbility { condition: Condition { comparison: Comparison::GE, threshold: 5 }, ability: HeroAbilityType::HeavyBear }),
                spell: None,
                card_modifier: None,
                real_spec: SlayCardSpec::Challenge,
            },
            HeroAbilityType::BadAxe => CardSpecView {
                card_type: CardType::Hero(HeroType::Fighter),
                repeat: 1,
                label: "Bad Axe"@,
                description: "DESTROY a Hero card."@,
                image_path: "cards/heros/fighter/bad_axe.jpg"@,
                monster: None,
                modifiers: Seq::empty(),
                hero_ability: Some(HeroAbility { condition: Condition { comparison: Comparison::GE, threshold: 8 }, ability: HeroAbilityType::BadAxe }),
                spell: None,
                card_modifier: None,
                real_spec: SlayCardSpec::Challenge,
            },
            HeroAbilityType::ToughTeddy => CardSpecView {
                card_type: CardType::Hero(HeroType::Fighter),
                repeat: 1,
                label: "Tough Teddy"@,
                description: "Each other player with a Fighter in their Party must DISCARD a card."@,
                image_path: "cards/heros/fighter/tough_teddy.jpg"@,
                monster: None,
                modifiers: Seq::empty(),
                hero_ability: Some(HeroAbility { condition: Condition { comparison: Comparison::GE, threshold: 4 }, ability: HeroAbilityType::ToughTeddy }),
                spell: None,
                card_modifier: None,
                real_spec: SlayCardSpec::Challenge,
            },
            HeroAbilityType::BearClaw => CardSpecView {
                card_type: CardType::Hero(HeroType::Fighter),
                repeat: 1,
                label: "Bear Claw"@,
                description: "Pull a card from another player's hand. If it is a Hero card, pull a second card from that player's hand."@,
                image_path: "cards/heros/fighter/bear_claw.jpg"@,
                monster: None,
                modifiers: Seq::empty(),
                hero_ability: Some(HeroAbility { condition: Condition { comparison: Comparison::GE, threshold: 7 }, ability: HeroAbilityType::BearClaw }),
                spell: None,
                card_modifier: None,
                real_spec: SlayCardSpec::Challenge,
            },
            HeroAbilityType::FuryKnuckle => CardSpecView {
                card_type: CardType::Hero(HeroType::Fighter),
                repeat: 1,
                label: "Fury Knuckle"@,
                description: "Pull a card from another player's hand. If it is a Challenge card, pull a second card from that player's hand."@,
                image_path: "cards/heros/fighter/fury_knuckle.jpg"@,
                monster: None,
                modifiers: Seq::empty(),
                hero_ability: Some(HeroAbility { condition: Condition { comparison: Comparison::GE, threshold: 5 }, ability: HeroAbilityType::FuryKnuckle }),
                spell: None,
                card_modifier: None,
                real_spec: SlayCardSpec::Challenge,
            },
            HeroAbilityType::BearyWise => CardSpecView {
                card_type: CardType::Hero(HeroType::Fighter),
                repeat: 1,
                label: "Beary Wise"@,
                description: "Each other player must DISCARD a card. Choose one of the discarded cards and add it to your hand."@,
                image_path: "cards/heros/fighter/beary_wise.jpg"@,
                monster: None,
                modifiers: Seq::empty(),
                hero_ability: Some(HeroAbility { condition: Condition { comparison: Comparison::GE, threshold: 7 }, ability: HeroAbilityType::BearyWise }),
                spell: None,
                card_modifier: None,
                real_spec: SlayCardSpec::Challenge,
            },
            HeroAbilityType::Hook => CardSpecView {
                card_type: CardType::Hero(HeroType::Ranger),
                repeat: 1,
                label: "Hook"@,
                description: "Play an Item card from your hand immediately and DRAW a card."@,
                image_path: "cards/heros/ranger/hook.jpg"@,
                monster: None,
                modifiers: Seq::empty(),
                hero_ability: Some(HeroAbility { condition: Condition { comparison: Comparison::GE, threshold: 6 }, ability: HeroAbilityType::Hook }),
                spell: None,
                card_modifier: None,
                real_spec: SlayCardSpec::Challenge,
            },
            HeroAbilityType::Wildshot => CardSpecView {
                card_type: CardType::Hero(HeroType::Ranger),
                repeat: 1,
                label: "Wildshot"@,
                description: "DRAW 3 cards and DISCARD a card."@,
                image_path: "cards/heros/ranger/wildshot.jpg"@,
                monster: None,
                modifiers: Seq::empty(),
                hero_ability: Some(HeroAbility { condition: Condition { comparison: Comparison::GE, threshold: 8 }, ability: HeroAbilityType::Wildshot }),
                spell: None,
                card_modifier: None,
                real_spec: SlayCardSpec::Challenge,
            },
            HeroAbilityType::SeriousGrey => CardSpecView {
                card_type: CardType::Hero(HeroType::Ranger),
                repeat: 1,
                label: "Serious Grey"@,
                description: "DESTROY a Hero card and DRAW a card."@,
                image_path: "cards/heros/ranger/serious_grey.jpg"@,
                monster: None,
                modifiers: Seq::empty(),
                hero_ability: Some(HeroAbility { condition: Condition { comparison: Comparison::GE, threshold: 9 }, ability: HeroAbilityType::SeriousGrey }),
                spell: None,
                card_modifier: None,
                real_spec: SlayCardSpec::Challenge,
            },
            HeroAbilityType::WilyRed => CardSpecView {
                card_type: CardType::Hero(HeroType::Ranger),
                repeat: 1,
                label: "Wily Red"@,
                description: "DRAW cards until you have 7 cards in your hand."@,
                image_path: "cards/heros/ranger/wily_red.jpg"@,
                monster: None,
                modifiers: Seq::empty(),
                hero_ability: Some(HeroAbility { condition: Condition { comparison: Comparison::GE, threshold: 10 }, ability: HeroAbilityType::WilyRed }),
                spell: None,
                card_modifier: None,
                real_spec: SlayCardSpec::Challenge,
            },
            HeroAbilityType::QuickDraw => CardSpecView {
                card_type: CardType::Hero(HeroType::Ranger),
                repeat: 1,
                label: "Quick Draw"@,
                description: "DRAW 2 cards. If at least one of those cards is an item card, you may play one of them immediately."@,
                image_path: "cards/heros/ranger/quick_draw.jpg"@,
                monster: None,
                modifiers: Seq::empty(),
                hero_ability: Some(HeroAbility { condition: Condition { comparison: Comparison::GE, threshold: 8 }, ability: HeroAbilityType::QuickDraw }),
                spell: None,
                card_modifier: None,
                real_spec: SlayCardSpec::Challenge,
            },
            HeroAbilityType::LookieRookie => CardSpecView {
                card_type: CardType::Hero(HeroType::Ranger),
                repeat: 1,
                label: "Lookie Rookie"@,
                description: "Search the discard pile for an Item card and add it to your hand."@,
                image_path: "cards/heros/ranger/lookie_rookie.jpg"@,
                monster: None,
                modifiers: Seq::empty(),
                hero_ability: Some(HeroAbility { condition: Condition { comparison: Comparison::GE, threshold: 5 }, ability: HeroAbilityType::LookieRookie }),
                spell: None,
                card_modifier: None,
                real_spec: SlayCardSpec::Challenge,
            },
            HeroAbilityType::Bullseye => CardSpecView {
                card_type: CardType::Hero(HeroType::Ranger),
                repeat: 1,
                label: "Bullseye"@,
                description: "Look at the top 3 cards of the deck. Add one to your hand, then return the other two to the top of the deck in any order."@,
                image_path: "cards/heros/ranger/bullseye.jpg"@,
                monster: None,
                modifiers: Seq::empty(),
                hero_ability: Some(HeroAbility { condition: Condition { comparison: Comparison::GE, threshold: 7 }, ability: HeroAbilityType::Bullseye }),
                spell: None,
                card_modifier: None,
                real_spec: SlayCardSpec::Challenge,
            },
            HeroAbilityType::SharpFox => CardSpecView {
                card_type: CardType::Hero(HeroType::Ranger),
                repeat: 1,
                label: "Sharp Fox"@,
                description: "Look at another player's hand."@,
                image_path: "cards/heros/ranger/sharp_fox.jpg"@,
                monster: None,
                modifiers: Seq::empty(),
                hero_ability: Some(HeroAbility { condition: Condition { comparison: Comparison::GE, threshold: 5 }, ability: HeroAbilityType::SharpFox }),
                spell: None,
                card_modifier: None,
                real_spec: SlayCardSpec::Challenge,
            },
            HeroAbilityType::FuzzyCheeks => CardSpecView {
                card_type: CardType::Hero(HeroType::Bard),
                repeat: 1,
                label: "Fuzzy Cheeks"@,
                description: "DRAW a card and play a Hero card from you hand immediately."@,
                image_path: "cards/heros/bards/fuzzy_cheeks.jpg"@,
                monster: None,
                modifiers: Seq::empty(),
                hero_ability: Some(HeroAbility { condition: Condition { comparison: Comparison::GE, threshold: 8 }, ability: HeroAbilityType::FuzzyCheeks }),
                spell: None,
                card_modifier: None,
                real_spec: SlayCardSpec::Challenge,
            },
            HeroAbilityType::Peanut => CardSpecView {
                card_type: CardType::Hero(HeroType::Bard),
                repeat: 1,
                label: "Peanut"@,
                description: "DRAW 2 cards."@,
                image_path: "cards/heros/bards/peanut.jpg"@,
                monster: None,
                modifiers: Seq::empty(),
                hero_ability: Some(HeroAbility { condition: Condition { comparison: Comparison::GE, threshold: 7 }, ability: HeroAbilityType::Peanut }),
                spell: None,
                card_modifier: None,
                real_spec: SlayCardSpec::Challenge,
            },
            HeroAbilityType::NappingNibbles => CardSpecView {
                card_type: CardType::Hero(HeroType::Bard),
                repeat: 1,
                label: "Napping Nibbles"@,
                description: "Do nothing."@,
                image_path: "cards/heros/bards/napping_nibbles.jpg"@,
                monster: None,
                modifiers: Seq::empty(),
                hero_ability: Some(HeroAbility { condition: Condition { comparison: Comparison::GE, threshold: 2 }, ability: HeroAbilityType::NappingNibbles }),
                spell: None,
                card_modifier: None,
                real_spec: SlayCardSpec::Challenge,
            },
            HeroAbilityType::TipsyTootie => CardSpecView {
                card_type: CardType::Hero(HeroType::Bard),
                repeat: 1,
                label: "Tipsy Tootie"@,
                description: "Choose a player. STEAL a Hero card from that player's Party and move this card to that player's Party."@,
                image_path: "cards/heros/bards/tipsy_tootie.jpg"@,
                monster: None,
                modifiers: Seq::empty(),
                hero_ability: Some(HeroAbility { condition: Condition { comparison: Comparison::GE, threshold: 6 }, ability: HeroAbilityType::TipsyTootie }),
                spell: None,
                card_modifier: None,
                real_spec: SlayCardSpec::Challenge,
            },
            HeroAbilityType::MellowDee => CardSpecView {
                card_type: CardType::Hero(HeroType::Bard),
                repeat: 1,
                label: "Mellow Dee"@,
                description: "DRAW a card. If that card is a Hero card, you may play it immediately."@,
                image_path: "cards/heros/bards/mellow_dee.jpg"@,
                monster: None,
                modifiers: Seq::empty(),
                hero_ability: Some(HeroAbility { condition: Condition { comparison: Comparison::GE, threshold: 7 }, ability: HeroAbilityType::MellowDee }),
                spell: None,
                card_modifier: None,
                real_spec: SlayCardSpec::Challenge,
            },
            HeroAbilityType::LuckBucky => CardSpecView {
                card_type: CardType::Hero(HeroType::Bard),
                repeat: 1,
                label: "Luck Bucky"@,
                description: "Pull a card from another player's hand. If that card is a Hero card, you may play it immediately."@,
                image_path: "cards/heros/bards/lucky_bucky.jpg"@,
                monster: None,
                modifiers: Seq::empty(),
                hero_ability: Some(HeroAbility { condition: Condition { comparison: Comparison::GE, threshold: 7 }, ability: HeroAbilityType::LuckBucky }),
                spell: None,
                card_modifier: None,
                real_spec: SlayCardSpec::Challenge,
            },
            HeroAbilityType::DodgyDealer => CardSpecView {
                card_type: CardType::Hero(HeroType::Bard),
                repeat: 1,
                label: "Dodgy Dealer"@,
                description: "Trade hands with another player."@,
                image_path: "cards/heros/bards/dodgy_dealer.jpg"@,
                monster: None,
                modifiers: Seq::empty(),
                hero_ability: Some(HeroAbility { condition: Condition { comparison: Comparison::GE, threshold: 9 }, ability: HeroAbilityType::DodgyDealer }),
                spell: None,
                card_modifier: None,
                real_spec: SlayCardSpec::Challenge,
            },
            HeroAbilityType::GreedyCheeks => CardSpecView {
                card_type: CardType::Hero(HeroType::Bard),
                repeat: 1,
                label: "Greedy Cheeks"@,
                description: "Each other player must give you a card from their hand."@,
                image_path: "cards/heros/bards/greedy_cheeks.jpg"@,
                monster: None,
                modifiers: Seq::empty(),
                hero_ability: Some(HeroAbility { condition: Condition { comparison: Comparison::GE, threshold: 8 }, ability: HeroAbilityType::GreedyCheeks }),
                spell: None,
                card_modifier: None,
                real_spec: SlayCardSpec::Challenge,
            },
            HeroAbilityType::Fluffy => CardSpecView {
                card_type: CardType::Hero(HeroType::Wizard),
                repeat: 1,
                label: "Fluffy"@,
                description: "DESTROY 2 Hero cards."@,
                image_path: "cards/heros/wizard/fluffy.jpg"@,
                monster: None,
                modifiers: Seq::empty(),
                hero_ability: Some(HeroAbility { condition: Condition { comparison: Comparison::GE, threshold: 10 }, ability: HeroAbilityType::Fluffy }),
                spell: None,
                card_modifier: None,
                real_spec: SlayCardSpec::Challenge,
            },
            HeroAbilityType::Wiggles => CardSpecView {
                card_type: CardType::Hero(HeroType::Wizard),
                repeat: 1,
                label: "Wiggles"@,
                description: "STEAL a Hero card and roll to use its effect immediately."@,
                image_path: "cards/heros/wizard/wiggles.jpg"@,
                monster: None,
                modifiers: Seq::empty(),
                hero_ability: Some(HeroAbility { condition: Condition { comparison: Comparison::GE, threshold: 10 }, ability: HeroAbilityType::Wiggles }),
                spell: None,
                card_modifier: None,
                real_spec: SlayCardSpec::Challenge,
            },
            HeroAbilityType::Spooky => CardSpecView {
                card_type: CardType::Hero(HeroType::Wizard),
                repeat: 1,
                label: "Spooky"@,
                description: "Each other player must SACRIFICE a Hero card."@,
                image_path: "cards/heros/wizard/spooky.jpg"@,
                monster: None,
                modifiers: Seq::empty(),
                hero_ability: Some(HeroAbility { condition: Condition { comparison: Comparison::GE, threshold: 10 }, ability: HeroAbilityType::Spooky }),
                spell: None,
                card_modifier: None,
                real_spec: SlayCardSpec::Challenge,
            },
            HeroAbilityType::Snowball => CardSpecView {
                card_type: CardType::Hero(HeroType::Wizard),
                repeat: 1,
                label: "Snowball"@,
                description: "DRAW a card. If it is a Magic card, you may play it immediately and DRAW a second card."@,
                image_path: "cards/heros/wizard/snowball.jpg"@,
                monster: None,
                modifiers: Seq::empty(),
                hero_ability: Some(HeroAbility { condition: Condition { comparison: Comparison::GE, threshold: 6 }, ability: HeroAbilityType::Snowball }),
                spell: None,
                card_modifier: None,
                real_spec: SlayCardSpec::Challenge,
            },
            HeroAbilityType::Buttons => CardSpecView {
                card_type: CardType::Hero(HeroType::Wizard),
                repeat: 1,
                label: "Buttons"@,
                description: "Pull a card from another player's hand. If it is a Magic card, you may play it immediately."@,
                image_path: "cards/heros/wizard/buttons.jpg"@,
                monster: None,
                modifiers: Seq::empty(),
                hero_ability: Some(HeroAbility { condition: Condition { comparison: Comparison::GE, threshold: 6 }, ability: HeroAbilityType::Buttons }),
                spell: None,
                card_modifier: None,
                real_spec: SlayCardSpec::Challenge,
            },
            HeroAbilityType::BunBun => CardSpecView {
                card_type: CardType::Hero(HeroType::Wizard),
                repeat: 1,
                label: "Bun Bun"@,
                description: "Search the discard pile for a Magic card and add it to your hand."@,
                image_path: "cards/heros/wizard/bun_bun.jpg"@,
                monster: None,
                modifiers: Seq::empty(),
                hero_ability: Some(HeroAbility { condition: Condition { comparison: Comparison::GE, threshold: 5 }, ability: HeroAbilityType::BunBun }),
                spell: None,
                card_modifier: None,
                real_spec: SlayCardSpec::Challenge,
            },
            HeroAbilityType::Hopper => CardSpecView {
                card_type: CardType::Hero(HeroType::Wizard),
                repeat: 1,
                label: "Hopper"@,
                description: "Choose a player. That player must SACRIFICE a Hero card."@,
                image_path: "cards/heros/wizard/hopper.jpg"@,
                monster: None,
                modifiers: Seq::empty(),
                hero_ability: Some(HeroAbility { condition: Condition { comparison: Comparison::GE, threshold: 7 }, ability: HeroAbilityType::Hopper }),
                spell: None,
                card_modifier: None,
                real_spec: SlayCardSpec::Challenge,
            },
            HeroAbilityType::Whiskers => CardSpecView {
                card_type: CardType::Hero(HeroType::Wizard),
                repeat: 1,
                label: "Whiskers"@,
                description: "STEAL a Hero card and DESTROY a Hero card."@,
                image_path: "cards/heros/wizard/whiskers.jpg"@,
                monster: None,
                modifiers: Seq::empty(),
                hero_ability: Some(HeroAbility { condition: Condition { comparison: Comparison::GE, threshold: 11 }, ability: HeroAbilityType::Whiskers }),
                spell: None,
                card_modifier: None,
                real_spec: SlayCardSpec::Challenge,
            },
    }
}

/// The specification of each leader card.
pub open spec fn leader_card_spec_view(hero_type: HeroType) -> CardSpecView {
    match hero_type {
            HeroType::Bard => CardSpecView {
                card_type: CardType::PartyLeader(HeroType::Bard),
                repeat: 1,
                label: "The Charismatic Song"@,
                description: "Each time you roll to use a Hero card's effect, +1 to your roll."@,
                image_path: "cards/party_leaders/charismatic_song.jpg"@,
                monster: None,
                modifiers: Seq::empty(),
                hero_ability: None,
                spell: None,
                card_modifier: None,
                real_spec: SlayCardSpec::Challenge,
            },
            HeroType::Wizard => CardSpecView {
                card_type: CardType::PartyLeader(HeroType::Wizard),
                repeat: 1,
                label: "The Cloaked Sage"@,
                description: "Each time you play a Magic card, DRAW a card."@,
                image_path: "cards/party_leaders/cloaked_sage.jpg"@,
                monster: None,
                modifiers: Seq::empty(),
                hero_ability: None,
                spell: None,
                card_modifier: None,
                real_spec: SlayCardSpec::Challenge,
            },
            HeroType::Fighter => CardSpecView {
                card_type: CardType::PartyLeader(HeroType::Fighter),
                repeat: 1,
                label: "The Fist of Reason"@,
                description: "Each time you roll to CHALLENGE, +2 to your roll."@,
                image_path: "cards/party_leaders/fist_of_reason.jpg"@,
                monster: None,
                modifiers: Seq::empty(),
                hero_ability: None,
                spell: None,
                card_modifier: None,
                real_spec: SlayCardSpec::Challenge,
            },
            HeroType::Gaurdian => CardSpecView {
                card_type: CardType::PartyLeader(HeroType::Gaurdian),
                repeat: 1,
                label: "The Protecting Horn"@,
                description: "Each time you play a Modifier card on a roll, +1 or -1 to that roll."@,
                image_path: "cards/party_leaders/protecting_horn.jpg"@,
                monster: None,
                modifiers: Seq::empty(),
                hero_ability: None,
                spell: None,
                card_modifier: None,
                real_spec: SlayCardSpec::Challenge,
            },
            HeroType::Ranger => CardSpecView {
                card_type: CardType::PartyLeader(HeroType::Ranger),
                repeat: 1,
                label: "The Charismatic Song"@,
                description: "Each time you roll to ATTACK a Monster card, +1 to your roll."@,
                image_path: "cards/party_leaders/divine_arrow.jpg"@,
                monster: None,
                modifiers: Seq::empty(),
                hero_ability: None,
                spell: None,
                card_modifier: None,
                real_spec: SlayCardSpec::Challenge,
            },
            HeroType::Thief => CardSpecView {
                card_type: CardType::PartyLeader(HeroType::Thief),
                repeat: 1,
                label: "The Shadow Claw"@,
                description: "Once per turn on your turn, you may spend an action point to pull a card from another player's hand."@,
                image_path: "cards/party_leaders/shadow_claw.jpg"@,
                monster: None,
                modifiers: Seq::empty(),
                hero_ability: None,
                spell: None,
                card_modifier: None,
                real_spec: SlayCardSpec::Challenge,
            },
    }
}

/// The specification of each monster card.
pub open spec fn monster_card_spec_view(monster: Monster) -> CardSpecView {
    match monster {
            Monster::AnuranCauldron => CardSpecView {
                card_type: CardType::Monster,
                repeat: 1,
                label: "Anuran Cauldron"@,
                description: "Each time you roll, +1 to your roll."@,
                image_path: "cards/monsters/anuran_cauldron.jpg"@,
                monster: Some(Monster::AnuranCauldron),
                modifiers: Seq::empty(),
                hero_ability: None,
                spell: None,
                card_modifier: None,
                real_spec: SlayCardSpec::Challenge,
            },
            Monster::TitanWyvern => CardSpecView {
                card_type: CardType::Monster,
                repeat: 1,
                label: "Titan Wyvern"@,
                description: "Each time you roll for a Challenge card, +1 to your roll."@,
                image_path: "cards/monsters/titan_wyvern.jpg"@,
                monster: Some(Monster::TitanWyvern),
                modifiers: Seq::empty(),
                hero_ability: None,
                spell: None,
                card_modifier: None,
                real_spec: SlayCardSpec::Challenge,
            },
            Monster::DarkDragonKing => CardSpecView {
                card_type: CardType::Monster,
                repeat: 1,
                label: "Dark Dragon King"@,
                description: "Each time you roll for a Hero card's effect, +1 to your roll."@,
                image_path: "cards/monsters/dark_dragon_king.jpg"@,
                monster: Some(Monster::DarkDragonKing),
                modifiers: Seq::empty(),
                hero_ability: None,
                spell: None,
                card_modifier: None,
                real_spec: SlayCardSpec::Challenge,
            },
            Monster::AbyssQueen => CardSpecView {
                card_type: CardType::Monster,
                repeat: 1,
                label: "Abyss Queen"@,
                description: "Each time another player plays a Modifier card on one of your rolls, +1 to your roll."@,
                image_path: "cards/monsters/abyss_queen.jpg"@,
                monster: Some(Monster::AbyssQueen),
                modifiers: Seq::empty(),
                hero_ability: None,
                spell: None,
                card_modifier: None,
                real_spec: SlayCardSpec::Challenge,
            },
            Monster::RexMajor => CardSpecView {
                card_type: CardType::Monster,
                repeat: 1,
                label: "Rex Major"@,
                description: "Each time you DRAW a Modifier card, you may reveal it and DRAW a second card."@,
                image_path: "cards/monsters/rex_major.jpg"@,
                monster: Some(Monster::RexMajor),
                modifiers: Seq::empty(),
                hero_ability: None,
                spell: None,
                card_modifier: None,
                real_spec: SlayCardSpec::Challenge,
            },
            Monster::CorruptedSabretooth => CardSpecView {
                card_type: CardType::Monster,
                repeat: 1,
                label: "Corrupted Sabretooth"@,
                description: "Each time you would DESTROY a Hero card, you may STEAL that Hero card instead."@,
                image_path: "cards/monsters/corrupted_sabretooth.jpg"@,
                monster: Some(Monster::CorruptedSabretooth),
                modifiers: Seq::empty(),
                hero_ability: None,
                spell: None,
                card_modifier: None,
                real_spec: SlayCardSpec::Challenge,
            },
            Monster::CrownedSerpent => CardSpecView {
                card_type: CardType::Monster,
                repeat: 1,
                label: "Crowned Serpent"@,
                description: "Each time any player (including you) plays a Modifier card, you may DRAW a card."@,
                image_path: "cards/monsters/crowned_serpent.jpg"@,
                monster: Some(Monster::CrownedSerpent),
                modifiers: Seq::empty(),
                hero_ability: None,
                spell: None,
                card_modifier: None,
                real_spec: SlayCardSpec::Challenge,
            },
            Monster::WarwornOwlbear => CardSpecView {
                card_type: CardType::Monster,
                repeat: 1,
                label: "Warworn Owlbear"@,
                description: "Item cards you play cannot be challenged."@,
                image_path: "cards/monsters/warworn_owlbear.jpg"@,
                monster: Some(Monster::WarwornOwlbear),
                modifiers: Seq::empty(),
                hero_ability: None,
                spell: None,
                card_modifier: None,
                real_spec: SlayCardSpec::Challenge,
            },
            Monster::Dracos => CardSpecView {
                card_type: CardType::Monster,
                repeat: 1,
                label: "Dracos"@,
                description: "Each time a Hero card in your Party is destroyed, you may DRAW a card."@,
                image_path: "cards/monsters/dracos.jpg"@,
                monster: Some(Monster::Dracos),
                modifiers: Seq::empty(),
                hero_ability: None,
                spell: None,
                card_modifier: None,
                real_spec: SlayCardSpec::Challenge,
            },
            Monster::Malammoth => CardSpecView {
                card_type: CardType::Monster,
                repeat: 1,
                label: "Malammoth"@,
                description: "Each time you DRAW an Item card, you may play it immediately."@,
                image_path: "cards/monsters/malamammoth.jpg"@,
                monster: Some(Monster::Malammoth),
                modifiers: Seq::empty(),
                hero_ability: None,
                spell: None,
                card_modifier: None,
                real_spec: SlayCardSpec::Challenge,
            },
            Monster::Bloodwing => CardSpecView {
                card_type: CardType::Monster,
                repeat: 1,
                label: "Bloodwing"@,
                description: "Each time another player CHALLENGES you, that player must DISCARD a card."@,
                image_path: "cards/monsters/bloodwing.jpg"@,
                monster: Some(Monster::Bloodwing),
                modifiers: Seq::empty(),
                hero_ability: None,
                spell: None,
                card_modifier: None,
                real_spec: SlayCardSpec::Challenge,
            },
            Monster::ArcticAries => CardSpecView {
                card_type: CardType::Monster,
                repeat: 1,
                label: "Arctic Aries"@,
                description: "Each time you successfully roll to use a Hero card's effect, you may DRAW a card."@,
                image_path: "cards/monsters/arctic_aries.jpg"@,
                monster: Some(Monster::ArcticAries),
                modifiers: Seq::empty(),
                hero_ability: None,
                spell: None,
                card_modifier: None,
                real_spec: SlayCardSpec::Challenge,
            },
            Monster::MegaSlime => CardSpecView {
                card_type: CardType::Monster,
                repeat: 1,
                label: "Mega Slime"@,
                description: "You may spend an extra action point on each of your turns."@,
                image_path: "cards/monsters/mega_slime.jpg"@,
                monster: Some(Monster::MegaSlime),
                modifiers: Seq::empty(),
                hero_ability: None,
                spell: None,
                card_modifier: None,
                real_spec: SlayCardSpec::Challenge,
            },
            Monster::Orthus => CardSpecView {
                card_type: CardType::Monster,
                repeat: 1,
                label: "Orthus"@,
                description: "Each time you DRAW a Magic card, you may play it immediately."@,
                image_path: "cards/monsters/orthus.jpg"@,
                monster: Some(Monster::Orthus),
                modifiers: Seq::empty(),
                hero_ability: None,
                spell: None,
                card_modifier: None,
                real_spec: SlayCardSpec::Challenge,
            },
            Monster::Terratuga => CardSpecView {
                card_type: CardType::Monster,
                repeat: 1,
                label: "Terratuga"@,
                description: "Your Hero cards cannot be destroyed."@,
                image_path: "cards/monsters/terratuga.jpg"@,
                monster: Some(Monster::Terratuga),
                modifiers: Seq::empty(),
                hero_ability: None,
                spell: None,
                card_modifier: None,
                real_spec: SlayCardSpec::Challenge,
            },
    }
}

/// The specification of each magic card.
pub open spec fn magic_card_spec_view(spell: MagicSpell) -> CardSpecView {
    match spell {
            MagicSpell::EnganglingTrap => CardSpecView {
                card_type: CardType::Magic,
                repeat: 2,
                label: "Entangling Trap"@,
                description: "DISCARD 2 cards, then STEAL a Hero card."@,
                image_path: "cards/magic/entangling_trap.jpg"@,
                monster: None,
                modifiers: Seq::empty(),
                hero_ability: None,
                spell: Some(MagicSpell::EnganglingTrap),
                card_modifier: None,
                real_spec: SlayCardSpec::Challenge,
            },
            MagicSpell::CriticalBoost => CardSpecView {
                card_type: CardType::Magic,
                repeat: 2,
                label: "Critical Boost"@,
                description: "DRAW 3 cards and DISCARD a card."@,
                image_path: "cards/magic/critical_boost.jpg"@,
                monster: None,
                modifiers: Seq::empty(),
                hero_ability: None,
                spell: Some(MagicSpell::CriticalBoost),
                card_modifier: None,
                real_spec: SlayCardSpec::Challenge,
            },
            MagicSpell::DestructiveSpell => CardSpecView {
                card_type: CardType::Magic,
                repeat: 2,
                label: "Destructive Spell"@,
                description: "DISCARD a card, then DESTROY a Hero card."@,
                image_path: "cards/magic/descructive_spell.jpg"@,
                monster: None,
                modifiers: Seq::empty(),
                hero_ability: None,
                spell: Some(MagicSpell::DestructiveSpell),
                card_modifier: None,
                real_spec: SlayCardSpec::Challenge,
            },
            MagicSpell::WindsOfChange => CardSpecView {
                card_type: CardType::Magic,
                repeat: 2,
                label: "Winds of Change"@,
                description: "Return an Item card equipped to any player's Hero card to that player's hand, then DRAW a card."@,
                image_path: "cards/magic/winds_of_change.jpg"@,
                monster: None,
                modifiers: Seq::empty(),
                hero_ability: None,
                spell: Some(MagicSpell::WindsOfChange),
                card_modifier: None,
                real_spec: SlayCardSpec::Challenge,
            },
            MagicSpell::EnchangedSpell => CardSpecView {
                card_type: CardType::Magic,
                repeat: 2,
                label: "Enchanted Spell"@,
                description: "+2 to all of your rolls until the end of your turn"@,
                image_path: "cards/magic/enchanged_spell.jpg"@,
                monster: None,
                modifiers: Seq::empty(),
                hero_ability: None,
                spell: Some(MagicSpell::EnchangedSpell),
                card_modifier: None,
                real_spec: SlayCardSpec::Challenge,
            },
            MagicSpell::ForcedExchange => CardSpecView {
                card_type: CardType::Magic,
                repeat: 1,
                label: "Forced Exchange"@,
                description: "Choose a player. STEAL a Hero card from that player's Party, then move a Hero card from your Party to that player's Party."@,
                image_path: "cards/magic/forced_exchange.jpg"@,
                monster: None,
                modifiers: Seq::empty(),
                hero_ability: None,
                spell: Some(MagicSpell::ForcedExchange),
                card_modifier: None,
                real_spec: SlayCardSpec::Challenge,
            },
            MagicSpell::ForcefulWinds => CardSpecView {
                card_type: CardType::Magic,
                repeat: 1,
                label: "Forceful Winds"@,
                description: "Return every equipped item card to its respective player's hand"@,
                image_path: "cards/magic/forceful_winds.jpg"@,
                monster: None,
                modifiers: Seq::empty(),
                hero_ability: None,
                spell: Some(MagicSpell::ForcefulWinds),
                card_modifier: None,
                real_spec: SlayCardSpec::Challenge,
            },
            MagicSpell::CallToTheFallen => CardSpecView {
                card_type: CardType::Magic,
                repeat: 1,
                label: "Call to the Fallen"@,
                description: "Search the discard pile for a Hero card and add it to your hand."@,
                image_path: "cards/magic/call_to_the_fallen.jpg"@,
                monster: None,
                modifiers: Seq::empty(),
                hero_ability: None,
                spell: Some(MagicSpell::CallToTheFallen),
                card_modifier: None,
                real_spec: SlayCardSpec::Challenge,
            },
    }
}

/// The specification of each modifier card.
pub open spec fn modifier_card_spec_view(kind: ModifierKinds) -> CardSpecView {
    match kind {
            ModifierKinds::Plus4 => CardSpecView {
                card_type: CardType::Modifier,
                repeat: 4,
                label: "Modifier +4"@,
                description: "Play this card after any player (including you) rolls the dice. +4 to that roll."@,
                image_path: "cards/modifier/4.jpg"@,
                monster: None,
                modifiers: seq![4i32],
                hero_ability: None,
                spell: None,
                card_modifier: None,
                real_spec: SlayCardSpec::Challenge,
            },
            ModifierKinds::Plus3Minus1 => CardSpecView {
                card_type: CardType::Modifier,
                repeat: 4,
                label: "Modifier +3/-1"@,
                description: "Play this card after any player (including you) rolls the dice. +3 or -1 to that roll."@,
                image_path: "cards/modifier/3.jpg"@,
                monster: None,
                modifiers: seq![3i32, -1i32],
                hero_ability: None,
                spell: None,
                card_modifier: None,
                real_spec: SlayCardSpec::Challenge,
            },
            ModifierKinds::Plus2Minus2 => CardSpecView {
                card_type: CardType::Modifier,
                repeat: 9,
                label: "modifier +2/-2"@,
                description: "Play this card after any player (including you) rolls the dice. +2 or -2 to that roll."@,
                image_path: "cards/modifier/2.jpg"@,
                monster: None,
                modifiers: seq![2i32, -2i32],
                hero_ability: None,
                spell: None,
                card_modifier: None,
                real_spec: SlayCardSpec::Challenge,
            },
            ModifierKinds::Plus1Minus3 => CardSpecView {
                card_type: CardType::Modifier,
                repeat: 4,
                label: "modifier +1/-3"@,
                description: "Play this card after any player (including you) rolls the dice. +1 or -3 to that roll."@,
                image_path: "cards/modifier/1.jpg"@,
                monster: None,
                modifiers: seq![1i32, -3i32],
                hero_ability: None,
                spell: None,
                card_modifier: None,
                real_spec: SlayCardSpec::Challenge,
            },
            ModifierKinds::Minus4 => CardSpecView {
                card_type: CardType::Modifier,
                repeat: 4,
                label: "modifier -4"@,
                description: "Play this card after any player (including you) rolls the dice. -4 to that roll."@,
                image_path: "cards/modifier/0.jpg"@,
                monster: None,
                modifiers: seq![-4i32],
                hero_ability: None,
                spell: None,
                card_modifier: None,
                real_spec: SlayCardSpec::Challenge,
            },
    }
}

/// The specification of each item card.
pub open spec fn item_card_spec_view(item: AnotherItemType) -> CardSpecView {
    match item {
            AnotherItemType::MaskCard(HeroType::Bard) => CardSpecView {
                card_type: CardType::Item(ItemType::Mask),
                repeat: 1,
                label: "Bard Mask"@,
                description: "The equipped Hero card is considered a Bard instead of its original class."@,
                image_path: "cards/items/bard_mask.jpg"@,
                monster: None,
                modifiers: Seq::empty(),
                hero_ability: None,
                spell: Some(MagicSpell::CallToTheFallen),
                card_modifier: Some(HeroStatusEffect::Mask(HeroType::Bard)),
                real_spec: SlayCardSpec::Challenge,
            },
            AnotherItemType::MaskCard(HeroType::Wizard) => CardSpecView {
                card_type: CardType::Item(ItemType::Mask),
                repeat: 1,
                label: "Wizard Mask"@,
                description: "The equipped Hero card is considered a Wizard instead of its original class."@,
                image_path: "cards/items/wizard_mask.jpg"@,
                monster: None,
                modifiers: Seq::empty(),
                hero_ability: None,
                spell: Some(MagicSpell::CallToTheFallen),
                card_modifier: Some(HeroStatusEffect::Mask(HeroType::Wizard)),
                real_spec: SlayCardSpec::Challenge,
            },
            AnotherItemType::MaskCard(HeroType::Fighter) => CardSpecView {
                card_type: CardType::Item(ItemType::Mask),
                repeat: 1,
                label: "Fighter Mask"@,
                description: "The equipped Hero card is considered a Fighter instead of its original class."@,
                image_path: "cards/items/fighter_mask.jpg"@,
                monster: None,
                modifiers: Seq::empty(),
                hero_ability: None,
                spell: Some(MagicSpell::CallToTheFallen),
                card_modifier: Some(HeroStatusEffect::Mask(HeroType::Fighter)),
                real_spec: SlayCardSpec::Challenge,
            },
            AnotherItemType::MaskCard(HeroType::Gaurdian) => CardSpecView {
                card_type: CardType::Item(ItemType::Mask),
                repeat: 1,
                label: "Guardian Mask"@,
                description: "The equipped Hero card is considered a Guardian instead of its original class."@,
                image_path: "cards/items/guardian_mask.jpg"@,
                monster: None,
                modifiers: Seq::empty(),
                hero_ability: None,
                spell: Some(MagicSpell::CallToTheFallen),
                card_modifier: Some(HeroStatusEffect::Mask(HeroType::Gaurdian)),
                real_spec: SlayCardSpec::Challenge,
            },
            AnotherItemType::MaskCard(HeroType::Ranger) => CardSpecView {
                card_type: CardType::Item(ItemType::Mask),
                repeat: 1,
                label: "Ranger Mask"@,
                description: "The equipped Hero card is considered a Ranger instead of its original class."@,
                image_path: "cards/items/ranger_mask.jpg"@,
                monster: None,
                modifiers: Seq::empty(),
                hero_ability: None,
                spell: Some(MagicSpell::CallToTheFallen),
                card_modifier: Some(HeroStatusEffect::Mask(HeroType::Ranger)),
                real_spec: SlayCardSpec::Challenge,
            },
            AnotherItemType::MaskCard(HeroType::Thief) => CardSpecView {
                card_type: CardType::Item(ItemType::Mask),
                repeat: 1,
                label: "Thief Mask"@,
                description: "The equipped Hero card is considered a Thief instead of its original class."@,
                image_path: "cards/items/thief_mask.jpg"@,
                monster: None,
                modifiers: Seq::empty(),
                hero_ability: None,
                spell: Some(MagicSpell::CallToTheFallen),
                card_modifier: Some(HeroStatusEffect::Mask(HeroType::Thief)),
                real_spec: SlayCardSpec::Challenge,
            },
            AnotherItemType::NotMask(Item::DecoyDoll) => CardSpecView {
                card_type: CardType::Item(ItemType::Blessed),
                repeat: 1,
                label: "Decoy Doll"@,
                description: "If the equipped Hero card would be sacrificed or destroyed, move Decoy Doll to the discard pile instead."@,
                image_path: "cards/items/decoy_doll.jpg"@,
                monster: None,
                modifiers: Seq::empty(),
                hero_ability: None,
                spell: Some(MagicSpell::CallToTheFallen),
                card_modifier: Some(HeroStatusEffect::SacrificeMeInstead),
                real_spec: SlayCardSpec::Challenge,
            },
            AnotherItemType::NotMask(Item::ReallyBigRing) => CardSpecView {
                card_type: CardType::Item(ItemType::Blessed),
                repeat: 2,
                label: "Really Big Ring"@,
                description: "Each time you roll to use the equipped Hero card's effect, +2 to your roll."@,
                image_path: "cards/items/really_big_ring.jpg"@,
                monster: None,
                modifiers: Seq::empty(),
                hero_ability: None,
                spell: Some(MagicSpell::CallToTheFallen),
                card_modifier: Some(HeroStatusEffect::AddToRollForAbility(2)),
                real_spec: SlayCardSpec::Challenge,
            },
            AnotherItemType::NotMask(Item::ParticularlyRustyCoin) => CardSpecView {
                card_type: CardType::Item(ItemType::Blessed),
                repeat: 2,
                label: "Particularly Rusty Coin"@,
                description: "If you unsuccessfully roll to use the equipped Hero card's effect, DRAW a card."@,
                image_path: "cards/items/particularly_rusty_coin.jpg"@,
                monster: None,
                modifiers: Seq::empty(),
                hero_ability: None,
                spell: Some(MagicSpell::CallToTheFallen),
                card_modifier: Some(HeroStatusEffect::DrawOnUnsuccessfulRollForAbility(1)),
                real_spec: SlayCardSpec::Challenge,
            },
            AnotherItemType::NotMask(Item::SealingKey) => CardSpecView {
                card_type: CardType::Item(ItemType::Cursed),
                repeat: 1,
                label: "Sealing Key"@,
                description: "You cannot use the equipped Hero card's effect."@,
                image_path: "cards/cursed_items/sealing_key.jpg"@,
                monster: None,
                modifiers: Seq::empty(),
                hero_ability: None,
                spell: Some(MagicSpell::CallToTheFallen),
                card_modifier: Some(HeroStatusEffect::RemoveAbility),
                real_spec: SlayCardSpec::Challenge,
            },
            AnotherItemType::NotMask(Item::SuspiciouslyShinyCoin) => CardSpecView {
                card_type: CardType::Item(ItemType::Cursed),
                repeat: 1,
                label: "Suspiciously Shiny Coin"@,
                description: "If you sucessfully roll to use the equipped Hero card's effect, DISCARD a card."@,
                image_path: "cards/cursed_items/suspiciously_shiny_coin.jpg"@,
                monster: None,
                modifiers: Seq::empty(),
                hero_ability: None,
                spell: Some(MagicSpell::CallToTheFallen),
                card_modifier: Some(HeroStatusEffect::DiscardOnSuccessfulRollForAbility(1)),
                real_spec: SlayCardSpec::Challenge,
            },
            AnotherItemType::NotMask(Item::CurseOfTheSnakesEyes) => CardSpecView {
                card_type: CardType::Item(ItemType::Cursed),
                repeat: 2,
                label: "Curse of the Snake's Eyes"@,
                description: "Each time you roll to use the equipped Hero card's effect, -2 to your roll."@,
                image_path: "cards/cursed_items/curse_of_the_snakes_eyes.jpg"@,
                monster: None,
                modifiers: Seq::empty(),
                hero_ability: None,
                spell: Some(MagicSpell::CallToTheFallen),
                card_modifier: Some(HeroStatusEffect::AddToRollForAbility(-2i32)),
                real_spec: SlayCardSpec::Challenge,
            },
    }
}

/// The specification of the challenge card.
pub open spec fn challenge_card_spec_view() -> CardSpecView {
    CardSpecView {
                card_type: CardType::Challenge,
                repeat: 8,
                label: "Challenge"@,
                description: "You may play this card when another player attempts to play a Hero, Item, or Magic card. CHALLENGE that card."@,
                image_path: "cards/challenge/challenge.jpg"@,
                monster: None,
                modifiers: Seq::empty(),
                hero_ability: None,
                spell: None,
                card_modifier: None,
                real_spec: SlayCardSpec::Challenge,
            }
}

/// The specification of each card: what is printed on it, and how many copies the game has.
pub open spec fn card_spec_view(card: SlayCardSpec) -> CardSpecView {
    match card {
        SlayCardSpec::HeroCard(hero) => hero_card_spec_view(hero),
        SlayCardSpec::PartyLeader(hero_type) => leader_card_spec_view(hero_type),
        SlayCardSpec::MonsterCard(monster) => monster_card_spec_view(monster),
        SlayCardSpec::MagicCard(spell) => magic_card_spec_view(spell),
        SlayCardSpec::ModifierCard(kind) => modifier_card_spec_view(kind),
        SlayCardSpec::Item(item) => item_card_spec_view(item),
        SlayCardSpec::Challenge => challenge_card_spec_view(),
    }
}

fn hero_card_spec(hero: HeroAbilityType) -> (r: CardSpec)
    ensures
        r@ == hero_card_spec_view(hero),
{
    match hero {
            HeroAbilityType::PlunderingPuma => CardSpec::from_parts(
                CardType::Hero(HeroType::Thief),
                1,
                "Plundering Puma".to_string(),
                "Pull 2 cards from another player's hand. That player may DRAW a card.".to_string(),
                "cards/heros/thief/plundering_puma.jpg".to_string(),
                None,
                vec![],
                Some(HeroAbility { condition: Condition::ge(6), ability: HeroAbilityType::PlunderingPuma }),
                None,
                None,
            ),
            HeroAbilityType::SlipperyPaws => CardSpec::from_parts(
                CardType::Hero(HeroType::Thief),
                1,
                "Slippery Paws".to_string(),
                "Pull 2 cards from another player's hand, then DISCARD one of those cards.".to_string(),
                "cards/heros/thief/slippery_paws.jpg".to_string(),
                None,
                vec![],
                Some(HeroAbility { condition: Condition::ge(6), ability: HeroAbilityType::SlipperyPaws }),
                None,
                None,
            ),
            HeroAbilityType::SmoothMimimeow => CardSpec::from_parts(
                CardType::Hero(HeroType::Thief),
                1,
                "Smooth Mimimeow".to_string(),
                "Pull a card from the hand of each other player with a Thief in their Party.".to_string(),
                "cards/heros/thief/smooth_mimimeow.jpg".to_string(),
                None,
                vec![],
                Some(HeroAbility { condition: Condition::ge(7), ability: HeroAbilityType::SmoothMimimeow }),
                None,
                None,
            ),
            HeroAbilityType::Meowzio => CardSpec::from_parts(
                CardType::Hero(HeroType::Thief),
                1,
                "Meowzio".to_string(),
                "Choose a player. STEAL a Hero card from that player's Party and pull a card from that player's hand.".to_string(),
                "cards/heros/thief/meowzio.jpg".to_string(),
                None,
                vec![],
                Some(HeroAbility { condition: Condition::ge(10), ability: HeroAbilityType::Meowzio }),
                None,
                None,
            ),
            HeroAbilityType::Shurikitty => CardSpec::from_parts(
                CardType::Hero(HeroType::Thief),
                1,
                "Shurikitty".to_string(),
                "DESTROY a Hero card. If that Hero card had an item card equipped to it, add that Item card to your hand instead of moving it to the discard pile.".to_string(),
                "cards/heros/thief/shurikitty.jpg".to_string(),
                None,
                vec![],
                Some(HeroAbility { condition: Condition::ge(9), ability: HeroAbilityType::Shurikitty }),
                None,
                None,
            ),
            HeroAbilityType::KitNapper => CardSpec::from_parts(
                CardType::Hero(HeroType::Thief),
                1,
                "Kit Napper".to_string(),
                "Steal a Hero card.".to_string(),
                "cards/heros/thief/kit_napper.jpg".to_string(),
                None,
                vec![],
                Some(HeroAbility { condition: Condition::ge(9), ability: HeroAbilityType::KitNapper }),
                None,
                None,
            ),
            HeroAbilityType::SilentShadow => CardSpec::from_parts(
                CardType::Hero(HeroType::Thief),
                1,
                "Silent Shadow".to_string(),
                "Look at another player's hand. Choose a card and add it to your hand.".to_string(),
                "cards/heros/thief/silent_shadow.jpg".to_string(),
                None,
                vec![],
                Some(HeroAbility { condition: Condition::ge(8), ability: HeroAbilityType::SilentShadow }),
                None,
                None,
            ),
            HeroAbilityType::SlyPickings => CardSpec::from_parts(
                CardType::Hero(HeroType::Thief),
                1,
                "Sly Pickings".to_string(),
                "Pull a card from another player's hand. If that card is an Item card, you may play it immediately.".to_string(),
                "cards/heros/thief/sly_pickings.jpg".to_string(),
                None,
                vec![],
                Some(HeroAbility { condition: Condition::ge(6), ability: HeroAbilityType::SlyPickings }),
                None,
                None,
            ),
            HeroAbilityType::HolyCurselifter => CardSpec::from_parts(
                CardType::Hero(HeroType::Gaurdian),
                1,
                "Holy Curselifter".to_string(),
                "Return a Cursed Item card equipped to a Hero card in your Party to your hand.".to_string(),
                "cards/heros/guardian/holy_curse_lifter.jpg".to_string(),
                None,
                vec![],
                Some(HeroAbility { condition: Condition::ge(5), ability: HeroAbilityType::HolyCurselifter }),
                None,
                None,
            ),
            HeroAbilityType::IronResolve => CardSpec::from_parts(
                CardType::Hero(HeroType::Gaurdian),
                1,
                "Iron Resolve".to_string(),
                "Cards you play cannot be challenged for the rest of your turn.".to_string(),
                "cards/heros/guardian/iron_resolve.jpg".to_string(),
                None,
                vec![],
                Some(HeroAbility { condition: Condition::ge(8), ability: HeroAbilityType::IronResolve }),
                None,
                None,
            ),
            HeroAbilityType::CalmingVoice => CardSpec::from_parts(
                CardType::Hero(HeroType::Gaurdian),
                1,
                "Calming Voice".to_string(),
                "Hero cards in your Party cannot be stolen until your next turn.".to_string(),
                "cards/heros/guardian/calming_voice.jpg".to_string(),
                None,
                vec![],
                Some(HeroAbility { condition: Condition::ge(9), ability: HeroAbilityType::CalmingVoice }),
                None,
                None,
            ),
            HeroAbilityType::VibrantGlow => CardSpec::from_parts(
                CardType::Hero(HeroType::Gaurdian),
                1,
                "Vibrant Glow".to_string(),
                "+5 to all of your rolls until the end of your turn.".to_string(),
                "cards/heros/guardian/vibrant_glow.jpg".to_string(),
                None,
                vec![],
                Some(HeroAbility { condition: Condition::ge(9), ability: HeroAbilityType::VibrantGlow }),
                None,
                None,
            ),
            HeroAbilityType::MightyBlade => CardSpec::from_parts(
                CardType::Hero(HeroType::Gaurdian),
                1,
                "Mighty Blade".to_string(),
                "Hero cards in your Party cannot be destroyed until your next turn.".to_string(),
                "cards/heros/guardian/mighty_blade.jpg".to_string(),
                None,
                vec![],
                Some(HeroAbility { condition: Condition::ge(8), ability: HeroAbilityType::MightyBlade }),
                None,
                None,
            ),
            HeroAbilityType::RadiantHorn => CardSpec::from_parts(
                CardType::Hero(HeroType::Gaurdian),
                1,
                "Radiant Horn".to_string(),
                "Search the discard pile for a Modifier card and add it to your hand.".to_string(),
                "cards/heros/guardian/radiant_horn.jpg".to_string(),
                None,
                vec![],
                Some(HeroAbility { condition: Condition::ge(6), ability: HeroAbilityType::RadiantHorn }),
                None,
                None,
            ),
            HeroAbilityType::GuidingLight => CardSpec::from_parts(
                CardType::Hero(HeroType::Gaurdian),
                1,
                "Guiding Light".to_string(),
                "Search the discard pile for a Hero card and add it to your hand.".to_string(),
                "cards/heros/guardian/guiding_light.jpg".to_string(),
                None,
                vec![],
                Some(HeroAbility { condition: Condition::ge(7), ability: HeroAbilityType::GuidingLight }),
                None,
                None,
            ),
            HeroAbilityType::WiseShield => CardSpec::from_parts(
                CardType::Hero(HeroType::Gaurdian),
                1,
                "Wise Shield".to_string(),
                "+3 to all of your rolls until the end of your turn.".to_string(),
                "cards/heros/guardian/wise_shield.jpg".to_string(),
                None,
                vec![],
                Some(HeroAbility { condition: Condition::ge(6), ability: HeroAbilityType::WiseShield }),
                None,
                None,
            ),
            HeroAbilityType::QiBear => CardSpec::from_parts(
                CardType::Hero(HeroType::Fighter),
                1,
                "Qi Bear".to_string(),
                "DISCARD up to 3 cards. For each card discarded, DESTROY a Hero card.".to_string(),
                "cards/heros/fighter/chi_bear.jpg".to_string(),
                None,
                vec![],
                Some(HeroAbility { condition: Condition::ge(10), ability: HeroAbilityType::QiBear }),
                None,
                None,
            ),
            HeroAbilityType::PanChucks => CardSpec::from_parts(
                CardType::Hero(HeroType::Fighter),
                1,
                "Pan Chucks".to_string(),
                "DRAW 2 cards. If at least one of those cards is a Challenge card, you may reveal it, then DESTROY a Hero card.".to_string(),
                "cards/heros/fighter/pan_chucks.jpg".to_string(),
                None,
                vec![],
                Some(HeroAbility { condition: Condition::ge(8), ability: HeroAbilityType::PanChucks }),
                None,
                None,
            ),
            HeroAbilityType::HeavyBear => CardSpec::from_parts(
                CardType::Hero(HeroType::Fighter),
                1,
                "Heavy Bear".to_string(),
                "Choose a player. That player must DISCARD 2 cards.".to_string(),
                "cards/heros/fighter/heavy_bear.jpg".to_string(),
                None,
                vec![],
                Some(HeroAbility { condition: Condition::ge(5), ability: HeroAbilityType::HeavyBear }),
                None,
                None,
            ),
            HeroAbilityType::BadAxe => CardSpec::from_parts(
                CardType::Hero(HeroType::Fighter),
                1,
                "Bad Axe".to_string(),
                "DESTROY a Hero card.".to_string(),
                "cards/heros/fighter/bad_axe.jpg".to_string(),
                None,
                vec![],
                Some(HeroAbility { condition: Condition::ge(8), ability: HeroAbilityType::BadAxe }),
                None,
                None,
            ),
            HeroAbilityType::ToughTeddy => CardSpec::from_parts(
                CardType::Hero(HeroType::Fighter),
                1,
                "Tough Teddy".to_string(),
                "Each other player with a Fighter in their Party must DISCARD a card.".to_string(),
                "cards/heros/fighter/tough_teddy.jpg".to_string(),
                None,
                vec![],
                Some(HeroAbility { condition: Condition::ge(4), ability: HeroAbilityType::ToughTeddy }),
                None,
                None,
            ),
            HeroAbilityType::BearClaw => CardSpec::from_parts(
                CardType::Hero(HeroType::Fighter),
                1,
                "Bear Claw".to_string(),
                "Pull a card from another player's hand. If it is a Hero card, pull a second card from that player's hand.".to_string(),
                "cards/heros/fighter/bear_claw.jpg".to_string(),
                None,
                vec![],
                Some(HeroAbility { condition: Condition::ge(7), ability: HeroAbilityType::BearClaw }),
                None,
                None,
            ),
            HeroAbilityType::FuryKnuckle => CardSpec::from_parts(
                CardType::Hero(HeroType::Fighter),
                1,
                "Fury Knuckle".to_string(),
                "Pull a card from another player's hand. If it is a Challenge card, pull a second card from that player's hand.".to_string(),
                "cards/heros/fighter/fury_knuckle.jpg".to_string(),
                None,
                vec![],
                Some(HeroAbility { condition: Condition::ge(5), ability: HeroAbilityType::FuryKnuckle }),
                None,
                None,
            ),
            HeroAbilityType::BearyWise => CardSpec::from_parts(
                CardType::Hero(HeroType::Fighter),
                1,
                "Beary Wise".to_string(),
                "Each other player must DISCARD a card. Choose one of the discarded cards and add it to your hand.".to_string(),
                "cards/heros/fighter/beary_wise.jpg".to_string(),
                None,
                vec![],
                Some(HeroAbility { condition: Condition::ge(7), ability: HeroAbilityType::BearyWise }),
                None,
                None,
            ),
            HeroAbilityType::Hook => CardSpec::from_parts(
                CardType::Hero(HeroType::Ranger),
                1,
                "Hook".to_string(),
                "Play an Item card from your hand immediately and DRAW a card.".to_string(),
                "cards/heros/ranger/hook.jpg".to_string(),
                None,
                vec![],
                Some(HeroAbility { condition: Condition::ge(6), ability: HeroAbilityType::Hook }),
                None,
                None,
            ),
            HeroAbilityType::Wildshot => CardSpec::from_parts(
                CardType::Hero(HeroType::Ranger),
                1,
                "Wildshot".to_string(),
                "DRAW 3 cards and DISCARD a card.".to_string(),
                "cards/heros/ranger/wildshot.jpg".to_string(),
                None,
                vec![],
                Some(HeroAbility { condition: Condition::ge(8), ability: HeroAbilityType::Wildshot }),
                None,
                None,
            ),
            HeroAbilityType::SeriousGrey => CardSpec::from_parts(
                CardType::Hero(HeroType::Ranger),
                1,
                "Serious Grey".to_string(),
                "DESTROY a Hero card and DRAW a card.".to_string(),
                "cards/heros/ranger/serious_grey.jpg".to_string(),
                None,
                vec![],
                Some(HeroAbility { condition: Condition::ge(9), ability: HeroAbilityType::SeriousGrey }),
                None,
                None,
            ),
            HeroAbilityType::WilyRed => CardSpec::from_parts(
                CardType::Hero(HeroType::Ranger),
                1,
                "Wily Red".to_string(),
                "DRAW cards until you have 7 cards in your hand.".to_string(),
                "cards/heros/ranger/wily_red.jpg".to_string(),
                None,
                vec![],
                Some(HeroAbility { condition: Condition::ge(10), ability: HeroAbilityType::WilyRed }),
                None,
                None,
            ),
            HeroAbilityType::QuickDraw => CardSpec::from_parts(
                CardType::Hero(HeroType::Ranger),
                1,
                "Quick Draw".to_string(),
                "DRAW 2 cards. If at least one of those cards is an item card, you may play one of them immediately.".to_string(),
                "cards/heros/ranger/quick_draw.jpg".to_string(),
                None,
                vec![],
                Some(HeroAbility { condition: Condition::ge(8), ability: HeroAbilityType::QuickDraw }),
                None,
                None,
            ),
            HeroAbilityType::LookieRookie => CardSpec::from_parts(
                CardType::Hero(HeroType::Ranger),
                1,
                "Lookie Rookie".to_string(),
                "Search the discard pile for an Item card and add it to your hand.".to_string(),
                "cards/heros/ranger/lookie_rookie.jpg".to_string(),
                None,
                vec![],
                Some(HeroAbility { condition: Condition::ge(5), ability: HeroAbilityType::LookieRookie }),
                None,
                None,
            ),
            HeroAbilityType::Bullseye => CardSpec::from_parts(
                CardType::Hero(HeroType::Ranger),
                1,
                "Bullseye".to_string(),
                "Look at the top 3 cards of the deck. Add one to your hand, then return the other two to the top of the deck in any order.".to_string(),
                "cards/heros/ranger/bullseye.jpg".to_string(),
                None,
                vec![],
                Some(HeroAbility { condition: Condition::ge(7), ability: HeroAbilityType::Bullseye }),
                None,
                None,
            ),
            HeroAbilityType::SharpFox => CardSpec::from_parts(
                CardType::Hero(HeroType::Ranger),
                1,
                "Sharp Fox".to_string(),
                "Look at another player's hand.".to_string(),
                "cards/heros/ranger/sharp_fox.jpg".to_string(),
                None,
                vec![],
                Some(HeroAbility { condition: Condition::ge(5), ability: HeroAbilityType::SharpFox }),
                None,
                None,
            ),
            HeroAbilityType::FuzzyCheeks => CardSpec::from_parts(
                CardType::Hero(HeroType::Bard),
                1,
                "Fuzzy Cheeks".to_string(),
                "DRAW a card and play a Hero card from you hand immediately.".to_string(),
                "cards/heros/bards/fuzzy_cheeks.jpg".to_string(),
                None,
                vec![],
                Some(HeroAbility { condition: Condition::ge(8), ability: HeroAbilityType::FuzzyCheeks }),
                None,
                None,
            ),
            HeroAbilityType::Peanut => CardSpec::from_parts(
                CardType::Hero(HeroType::Bard),
                1,
                "Peanut".to_string(),
                "DRAW 2 cards.".to_string(),
                "cards/heros/bards/peanut.jpg".to_string(),
                None,
                vec![],
                Some(HeroAbility { condition: Condition::ge(7), ability: HeroAbilityType::Peanut }),
                None,
                None,
            ),
            HeroAbilityType::NappingNibbles => CardSpec::from_parts(
                CardType::Hero(HeroType::Bard),
                1,
                "Napping Nibbles".to_string(),
                "Do nothing.".to_string(),
                "cards/heros/bards/napping_nibbles.jpg".to_string(),
                None,
                vec![],
                Some(HeroAbility { condition: Condition::ge(2), ability: HeroAbilityType::NappingNibbles }),
                None,
                None,
            ),
            HeroAbilityType::TipsyTootie => CardSpec::from_parts(
                CardType::Hero(HeroType::Bard),
                1,
                "Tipsy Tootie".to_string(),
                "Choose a player. STEAL a Hero card from that player's Party and move this card to that player's Party.".to_string(),
                "cards/heros/bards/tipsy_tootie.jpg".to_string(),
                None,
                vec![],
                Some(HeroAbility { condition: Condition::ge(6), ability: HeroAbilityType::TipsyTootie }),
                None,
                None,
            ),
            HeroAbilityType::MellowDee => CardSpec::from_parts(
                CardType::Hero(HeroType::Bard),
                1,
                "Mellow Dee".to_string(),
                "DRAW a card. If that card is a Hero card, you may play it immediately.".to_string(),
                "cards/heros/bards/mellow_dee.jpg".to_string(),
                None,
                vec![],
                Some(HeroAbility { condition: Condition::ge(7), ability: HeroAbilityType::MellowDee }),
                None,
                None,
            ),
            HeroAbilityType::LuckBucky => CardSpec::from_parts(
                CardType::Hero(HeroType::Bard),
                1,
                "Luck Bucky".to_string(),
                "Pull a card from another player's hand. If that card is a Hero card, you may play it immediately.".to_string(),
                "cards/heros/bards/lucky_bucky.jpg".to_string(),
                None,
                vec![],
                Some(HeroAbility { condition: Condition::ge(7), ability: HeroAbilityType::LuckBucky }),
                None,
                None,
            ),
            HeroAbilityType::DodgyDealer => CardSpec::from_parts(
                CardType::Hero(HeroType::Bard),
                1,
                "Dodgy Dealer".to_string(),
                "Trade hands with another player.".to_string(),
                "cards/heros/bards/dodgy_dealer.jpg".to_string(),
                None,
                vec![],
                Some(HeroAbility { condition: Condition::ge(9), ability: HeroAbilityType::DodgyDealer }),
                None,
                None,
            ),
            HeroAbilityType::GreedyCheeks => CardSpec::from_parts(
                CardType::Hero(HeroType::Bard),
                1,
                "Greedy Cheeks".to_string(),
                "Each other player must give you a card from their hand.".to_string(),
                "cards/heros/bards/greedy_cheeks.jpg".to_string(),
                None,
                vec![],
                Some(HeroAbility { condition: Condition::ge(8), ability: HeroAbilityType::GreedyCheeks }),
                None,
                None,
            ),
            HeroAbilityType::Fluffy => CardSpec::from_parts(
                CardType::Hero(HeroType::Wizard),
                1,
                "Fluffy".to_string(),
                "DESTROY 2 Hero cards.".to_string(),
                "cards/heros/wizard/fluffy.jpg".to_string(),
                None,
                vec![],
                Some(HeroAbility { condition: Condition::ge(10), ability: HeroAbilityType::Fluffy }),
                None,
                None,
            ),
            HeroAbilityType::Wiggles => CardSpec::from_parts(
                CardType::Hero(HeroType::Wizard),
                1,
                "Wiggles".to_string(),
                "STEAL a Hero card and roll to use its effect immediately.".to_string(),
                "cards/heros/wizard/wiggles.jpg".to_string(),
                None,
                vec![],
                Some(HeroAbility { condition: Condition::ge(10), ability: HeroAbilityType::Wiggles }),
                None,
                None,
            ),
            HeroAbilityType::Spooky => CardSpec::from_parts(
                CardType::Hero(HeroType::Wizard),
                1,
                "Spooky".to_string(),
                "Each other player must SACRIFICE a Hero card.".to_string(),
                "cards/heros/wizard/spooky.jpg".to_string(),
                None,
                vec![],
                Some(HeroAbility { condition: Condition::ge(10), ability: HeroAbilityType::Spooky }),
                None,
                None,
            ),
            HeroAbilityType::Snowball => CardSpec::from_parts(
                CardType::Hero(HeroType::Wizard),
                1,
                "Snowball".to_string(),
                "DRAW a card. If it is a Magic card, you may play it immediately and DRAW a second card.".to_string(),
                "cards/heros/wizard/snowball.jpg".to_string(),
                None,
                vec![],
                Some(HeroAbility { condition: Condition::ge(6), ability: HeroAbilityType::Snowball }),
                None,
                None,
            ),
            HeroAbilityType::Buttons => CardSpec::from_parts(
                CardType::Hero(HeroType::Wizard),
                1,
                "Buttons".to_string(),
                "Pull a card from another player's hand. If it is a Magic card, you may play it immediately.".to_string(),
                "cards/heros/wizard/buttons.jpg".to_string(),
                None,
                vec![],
                Some(HeroAbility { condition: Condition::ge(6), ability: HeroAbilityType::Buttons }),
                None,
                None,
            ),
            HeroAbilityType::BunBun => CardSpec::from_parts(
                CardType::Hero(HeroType::Wizard),
                1,
                "Bun Bun".to_string(),
                "Search the discard pile for a Magic card and add it to your hand.".to_string(),
                "cards/heros/wizard/bun_bun.jpg".to_string(),
                None,
                vec![],
                Some(HeroAbility { condition: Condition::ge(5), ability: HeroAbilityType::BunBun }),
                None,
                None,
            ),
            HeroAbilityType::Hopper => CardSpec::from_parts(
                CardType::Hero(HeroType::Wizard),
                1,
                "Hopper".to_string(),
                "Choose a player. That player must SACRIFICE a Hero card.".to_string(),
                "cards/heros/wizard/hopper.jpg".to_string(),
                None,
                vec![],
                Some(HeroAbility { condition: Condition::ge(7), ability: HeroAbilityType::Hopper }),
                None,
                None,
            ),
            HeroAbilityType::Whiskers => CardSpec::from_parts(
                CardType::Hero(HeroType::Wizard),
                1,
                "Whiskers".to_string(),
                "STEAL a Hero card and DESTROY a Hero card.".to_string(),
                "cards/heros/wizard/whiskers.jpg".to_string(),
                None,
                vec![],
                Some(HeroAbility { condition: Condition::ge(11), ability: HeroAbilityType::Whiskers }),
                None,
                None,
            ),
    }
}

fn leader_card_spec(hero_type: HeroType) -> (r: CardSpec)
    ensures
        r@ == leader_card_spec_view(hero_type),
{
    match hero_type {
            HeroType::Bard => CardSpec::from_parts(
                CardType::PartyLeader(HeroType::Bard),
                1,
                "The Charismatic Song".to_string(),
                "Each time you roll to use a Hero card's effect, +1 to your roll.".to_string(),
                "cards/party_leaders/charismatic_song.jpg".to_string(),
                None,
                vec![],
                None,
                None,
                None,
            ),
            HeroType::Wizard => CardSpec::from_parts(
                CardType::PartyLeader(HeroType::Wizard),
                1,
                "The Cloaked Sage".to_string(),
                "Each time you play a Magic card, DRAW a card.".to_string(),
                "cards/party_leaders/cloaked_sage.jpg".to_string(),
                None,
                vec![],
                None,
                None,
                None,
            ),
            HeroType::Fighter => CardSpec::from_parts(
                CardType::PartyLeader(HeroType::Fighter),
                1,
                "The Fist of Reason".to_string(),
                "Each time you roll to CHALLENGE, +2 to your roll.".to_string(),
                "cards/party_leaders/fist_of_reason.jpg".to_string(),
                None,
                vec![],
                None,
                None,
                None,
            ),
            HeroType::Gaurdian => CardSpec::from_parts(
                CardType::PartyLeader(HeroType::Gaurdian),
                1,
                "The Protecting Horn".to_string(),
                "Each time you play a Modifier card on a roll, +1 or -1 to that roll.".to_string(),
                "cards/party_leaders/protecting_horn.jpg".to_string(),
                None,
                vec![],
                None,
                None,
                None,
            ),
            HeroType::Ranger => CardSpec::from_parts(
                CardType::PartyLeader(HeroType::Ranger),
                1,
                "The Charismatic Song".to_string(),
                "Each time you roll to ATTACK a Monster card, +1 to your roll.".to_string(),
                "cards/party_leaders/divine_arrow.jpg".to_string(),
                None,
                vec![],
                None,
                None,
                None,
            ),
            HeroType::Thief => CardSpec::from_parts(
                CardType::PartyLeader(HeroType::Thief),
                1,
                "The Shadow Claw".to_string(),
                "Once per turn on your turn, you may spend an action point to pull a card from another player's hand.".to_string(),
                "cards/party_leaders/shadow_claw.jpg".to_string(),
                None,
                vec![],
                None,
                None,
                None,
            ),
    }
}

fn monster_card_spec(monster: Monster) -> (r: CardSpec)
    ensures
        r@ == monster_card_spec_view(monster),
{
    match monster {
            Monster::AnuranCauldron => CardSpec::from_parts(
                CardType::Monster,
                1,
                "Anuran Cauldron".to_string(),
                "Each time you roll, +1 to your roll.".to_string(),
                "cards/monsters/anuran_cauldron.jpg".to_string(),
                Some(Monster::AnuranCauldron),
                vec![],
                None,
                None,
                None,
            ),
            Monster::TitanWyvern => CardSpec::from_parts(
                CardType::Monster,
                1,
                "Titan Wyvern".to_string(),
                "Each time you roll for a Challenge card, +1 to your roll.".to_string(),
                "cards/monsters/titan_wyvern.jpg".to_string(),
                Some(Monster::TitanWyvern),
                vec![],
                None,
                None,
                None,
            ),
            Monster::DarkDragonKing => CardSpec::from_parts(
                CardType::Monster,
                1,
                "Dark Dragon King".to_string(),
                "Each time you roll for a Hero card's effect, +1 to your roll.".to_string(),
                "cards/monsters/dark_dragon_king.jpg".to_string(),
                Some(Monster::DarkDragonKing),
                vec![],
                None,
                None,
                None,
            ),
            Monster::AbyssQueen => CardSpec::from_parts(
                CardType::Monster,
                1,
                "Abyss Queen".to_string(),
                "Each time another player plays a Modifier card on one of your rolls, +1 to your roll.".to_string(),
                "cards/monsters/abyss_queen.jpg".to_string(),
                Some(Monster::AbyssQueen),
                vec![],
                None,
                None,
                None,
            ),
            Monster::RexMajor => CardSpec::from_parts(
                CardType::Monster,
                1,
                "Rex Major".to_string(),
                "Each time you DRAW a Modifier card, you may reveal it and DRAW a second card.".to_string(),
                "cards/monsters/rex_major.jpg".to_string(),
                Some(Monster::RexMajor),
                vec![],
                None,
                None,
                None,
            ),
            Monster::CorruptedSabretooth => CardSpec::from_parts(
                CardType::Monster,
                1,
                "Corrupted Sabretooth".to_string(),
                "Each time you would DESTROY a Hero card, you may STEAL that Hero card instead.".to_string(),
                "cards/monsters/corrupted_sabretooth.jpg".to_string(),
                Some(Monster::CorruptedSabretooth),
                vec![],
                None,
                None,
                None,
            ),
            Monster::CrownedSerpent => CardSpec::from_parts(
                CardType::Monster,
                1,
                "Crowned Serpent".to_string(),
                "Each time any player (including you) plays a Modifier card, you may DRAW a card.".to_string(),
                "cards/monsters/crowned_serpent.jpg".to_string(),
                Some(Monster::CrownedSerpent),
                vec![],
                None,
                None,
                None,
            ),
            Monster::WarwornOwlbear => CardSpec::from_parts(
                CardType::Monster,
                1,
                "Warworn Owlbear".to_string(),
                "Item cards you play cannot be challenged.".to_string(),
                "cards/monsters/warworn_owlbear.jpg".to_string(),
                Some(Monster::WarwornOwlbear),
                vec![],
                None,
                None,
                None,
            ),
            Monster::Dracos => CardSpec::from_parts(
                CardType::Monster,
                1,
                "Dracos".to_string(),
                "Each time a Hero card in your Party is destroyed, you may DRAW a card.".to_string(),
                "cards/monsters/dracos.jpg".to_string(),
                Some(Monster::Dracos),
                vec![],
                None,
                None,
                None,
            ),
            Monster::Malammoth => CardSpec::from_parts(
                CardType::Monster,
                1,
                "Malammoth".to_string(),
                "Each time you DRAW an Item card, you may play it immediately.".to_string(),
                "cards/monsters/malamammoth.jpg".to_string(),
                Some(Monster::Malammoth),
                vec![],
                None,
                None,
                None,
            ),
            Monster::Bloodwing => CardSpec::from_parts(
                CardType::Monster,
                1,
                "Bloodwing".to_string(),
                "Each time another player CHALLENGES you, that player must DISCARD a card.".to_string(),
                "cards/monsters/bloodwing.jpg".to_string(),
                Some(Monster::Bloodwing),
                vec![],
                None,
                None,
                None,
            ),
            Monster::ArcticAries => CardSpec::from_parts(
                CardType::Monster,
                1,
                "Arctic Aries".to_string(),
                "Each time you successfully roll to use a Hero card's effect, you may DRAW a card.".to_string(),
                "cards/monsters/arctic_aries.jpg".to_string(),
                Some(Monster::ArcticAries),
                vec![],
                None,
                None,
                None,
            ),
            Monster::MegaSlime => CardSpec::from_parts(
                CardType::Monster,
                1,
                "Mega Slime".to_string(),
                "You may spend an extra action point on each of your turns.".to_string(),
                "cards/monsters/mega_slime.jpg".to_string(),
                Some(Monster::MegaSlime),
                vec![],
                None,
                None,
                None,
            ),
            Monster::Orthus => CardSpec::from_parts(
                CardType::Monster,
                1,
                "Orthus".to_string(),
                "Each time you DRAW a Magic card, you may play it immediately.".to_string(),
                "cards/monsters/orthus.jpg".to_string(),
                Some(Monster::Orthus),
                vec![],
                None,
                None,
                None,
            ),
            Monster::Terratuga => CardSpec::from_parts(
                CardType::Monster,
                1,
                "Terratuga".to_string(),
                "Your Hero cards cannot be destroyed.".to_string(),
                "cards/monsters/terratuga.jpg".to_string(),
                Some(Monster::Terratuga),
                vec![],
                None,
                None,
                None,
            ),
    }
}

fn magic_card_spec(spell: MagicSpell) -> (r: CardSpec)
    ensures
        r@ == magic_card_spec_view(spell),
{
    match spell {
            MagicSpell::EnganglingTrap => CardSpec::from_parts(
                CardType::Magic,
                2,
                "Entangling Trap".to_string(),
                "DISCARD 2 cards, then STEAL a Hero card.".to_string(),
                "cards/magic/entangling_trap.jpg".to_string(),
                None,
                vec![],
                None,
                Some(MagicSpell::EnganglingTrap),
                None,
            ),
            MagicSpell::CriticalBoost => CardSpec::from_parts(
                CardType::Magic,
                2,
                "Critical Boost".to_string(),
                "DRAW 3 cards and DISCARD a card.".to_string(),
                "cards/magic/critical_boost.jpg".to_string(),
                None,
                vec![],
                None,
                Some(MagicSpell::CriticalBoost),
                None,
            ),
            MagicSpell::DestructiveSpell => CardSpec::from_parts(
                CardType::Magic,
                2,
                "Destructive Spell".to_string(),
                "DISCARD a card, then DESTROY a Hero card.".to_string(),
                "cards/magic/descructive_spell.jpg".to_string(),
                None,
                vec![],
                None,
                Some(MagicSpell::DestructiveSpell),
                None,
            ),
            MagicSpell::WindsOfChange => CardSpec::from_parts(
                CardType::Magic,
                2,
                "Winds of Change".to_string(),
                "Return an Item card equipped to any player's Hero card to that player's hand, then DRAW a card.".to_string(),
                "cards/magic/winds_of_change.jpg".to_string(),
                None,
                vec![],
                None,
                Some(MagicSpell::WindsOfChange),
                None,
            ),
            MagicSpell::EnchangedSpell => CardSpec::from_parts(
                CardType::Magic,
                2,
                "Enchanted Spell".to_string(),
                "+2 to all of your rolls until the end of your turn".to_string(),
                "cards/magic/enchanged_spell.jpg".to_string(),
                None,
                vec![],
                None,
                Some(MagicSpell::EnchangedSpell),
                None,
            ),
            MagicSpell::ForcedExchange => CardSpec::from_parts(
                CardType::Magic,
                1,
                "Forced Exchange".to_string(),
                "Choose a player. STEAL a Hero card from that player's Party, then move a Hero card from your Party to that player's Party.".to_string(),
                "cards/magic/forced_exchange.jpg".to_string(),
                None,
                vec![],
                None,
                Some(MagicSpell::ForcedExchange),
                None,
            ),
            MagicSpell::ForcefulWinds => CardSpec::from_parts(
                CardType::Magic,
                1,
                "Forceful Winds".to_string(),
                "Return every equipped item card to its respective player's hand".to_string(),
                "cards/magic/forceful_winds.jpg".to_string(),
                None,
                vec![],
                None,
                Some(MagicSpell::ForcefulWinds),
                None,
            ),
            MagicSpell::CallToTheFallen => CardSpec::from_parts(
                CardType::Magic,
                1,
                "Call to the Fallen".to_string(),
                "Search the discard pile for a Hero card and add it to your hand.".to_string(),
                "cards/magic/call_to_the_fallen.jpg".to_string(),
                None,
                vec![],
                None,
                Some(MagicSpell::CallToTheFallen),
                None,
            ),
    }
}

fn modifier_card_spec(kind: ModifierKinds) -> (r: CardSpec)
    ensures
        r@ == modifier_card_spec_view(kind),
{
    let r = match kind {
            ModifierKinds::Plus4 => CardSpec::from_parts(
                CardType::Modifier,
                4,
                "Modifier +4".to_string(),
                "Play this card after any player (including you) rolls the dice. +4 to that roll.".to_string(),
                "cards/modifier/4.jpg".to_string(),
                None,
                vec![4],
                None,
                None,
                None,
            ),
            ModifierKinds::Plus3Minus1 => CardSpec::from_parts(
                CardType::Modifier,
                4,
                "Modifier +3/-1".to_string(),
                "Play this card after any player (including you) rolls the dice. +3 or -1 to that roll.".to_string(),
                "cards/modifier/3.jpg".to_string(),
                None,
                vec![3, -1],
                None,
                None,
                None,
            ),
            ModifierKinds::Plus2Minus2 => CardSpec::from_parts(
                CardType::Modifier,
                9,
                "modifier +2/-2".to_string(),
                "Play this card after any player (including you) rolls the dice. +2 or -2 to that roll.".to_string(),
                "cards/modifier/2.jpg".to_string(),
                None,
                vec![2, -2],
                None,
                None,
                None,
            ),
            ModifierKinds::Plus1Minus3 => CardSpec::from_parts(
                CardType::Modifier,
                4,
                "modifier +1/-3".to_string(),
                "Play this card after any player (including you) rolls the dice. +1 or -3 to that roll.".to_string(),
                "cards/modifier/1.jpg".to_string(),
                None,
                vec![1, -3],
                None,
                None,
                None,
            ),
            ModifierKinds::Minus4 => CardSpec::from_parts(
                CardType::Modifier,
                4,
                "modifier -4".to_string(),
                "Play this card after any player (including you) rolls the dice. -4 to that roll.".to_string(),
                "cards/modifier/0.jpg".to_string(),
                None,
                vec![-4],
                None,
                None,
                None,
            ),
    };
    proof {
        assert(r@.modifiers =~= modifier_card_spec_view(kind).modifiers);
        assert(r@.label =~= modifier_card_spec_view(kind).label);
    }
    r
}

fn item_card_spec(item: AnotherItemType) -> (r: CardSpec)
    ensures
        r@ == item_card_spec_view(item),
{
    match item {
            AnotherItemType::MaskCard(HeroType::Bard) => CardSpec::from_parts(
                CardType::Item(ItemType::Mask),
                1,
                "Bard Mask".to_string(),
                "The equipped Hero card is considered a Bard instead of its original class.".to_string(),
                "cards/items/bard_mask.jpg".to_string(),
                None,
                vec![],
                None,
                Some(MagicSpell::CallToTheFallen),
                Some(HeroStatusEffect::Mask(HeroType::Bard)),
            ),
            AnotherItemType::MaskCard(HeroType::Wizard) => CardSpec::from_parts(
                CardType::Item(ItemType::Mask),
                1,
                "Wizard Mask".to_string(),
                "The equipped Hero card is considered a Wizard instead of its original class.".to_string(),
                "cards/items/wizard_mask.jpg".to_string(),
                None,
                vec![],
                None,
                Some(MagicSpell::CallToTheFallen),
                Some(HeroStatusEffect::Mask(HeroType::Wizard)),
            ),
            AnotherItemType::MaskCard(HeroType::Fighter) => CardSpec::from_parts(
                CardType::Item(ItemType::Mask),
                1,
                "Fighter Mask".to_string(),
                "The equipped Hero card is considered a Fighter instead of its original class.".to_string(),
                "cards/items/fighter_mask.jpg".to_string(),
                None,
                vec![],
                None,
                Some(MagicSpell::CallToTheFallen),
                Some(HeroStatusEffect::Mask(HeroType::Fighter)),
            ),
            AnotherItemType::MaskCard(HeroType::Gaurdian) => CardSpec::from_parts(
                CardType::Item(ItemType::Mask),
                1,
                "Guardian Mask".to_string(),
                "The equipped Hero card is considered a Guardian instead of its original class.".to_string(),
                "cards/items/guardian_mask.jpg".to_string(),
                None,
                vec![],
                None,
                Some(MagicSpell::CallToTheFallen),
                Some(HeroStatusEffect::Mask(HeroType::Gaurdian)),
            ),
            AnotherItemType::MaskCard(HeroType::Ranger) => CardSpec::from_parts(
                CardType::Item(ItemType::Mask),
                1,
                "Ranger Mask".to_string(),
                "The equipped Hero card is considered a Ranger instead of its original class.".to_string(),
                "cards/items/ranger_mask.jpg".to_string(),
                None,
                vec![],
                None,
                Some(MagicSpell::CallToTheFallen),
                Some(HeroStatusEffect::Mask(HeroType::Ranger)),
            ),
            AnotherItemType::MaskCard(HeroType::Thief) => CardSpec::from_parts(
                CardType::Item(ItemType::Mask),
                1,
                "Thief Mask".to_string(),
                "The equipped Hero card is considered a Thief instead of its original class.".to_string(),
                "cards/items/thief_mask.jpg".to_string(),
                None,
                vec![],
                None,
                Some(MagicSpell::CallToTheFallen),
                Some(HeroStatusEffect::Mask(HeroType::Thief)),
            ),
            AnotherItemType::NotMask(Item::DecoyDoll) => CardSpec::from_parts(
                CardType::Item(ItemType::Blessed),
                1,
                "Decoy Doll".to_string(),
                "If the equipped Hero card would be sacrificed or destroyed, move Decoy Doll to the discard pile instead.".to_string(),
                "cards/items/decoy_doll.jpg".to_string(),
                None,
                vec![],
                None,
                Some(MagicSpell::CallToTheFallen),
                Some(HeroStatusEffect::SacrificeMeInstead),
            ),
            AnotherItemType::NotMask(Item::ReallyBigRing) => CardSpec::from_parts(
                CardType::Item(ItemType::Blessed),
                2,
                "Really Big Ring".to_string(),
                "Each time you roll to use the equipped Hero card's effect, +2 to your roll.".to_string(),
                "cards/items/really_big_ring.jpg".to_string(),
                None,
                vec![],
                None,
                Some(MagicSpell::CallToTheFallen),
                Some(HeroStatusEffect::AddToRollForAbility(2)),
            ),
            AnotherItemType::NotMask(Item::ParticularlyRustyCoin) => CardSpec::from_parts(
                CardType::Item(ItemType::Blessed),
                2,
                "Particularly Rusty Coin".to_string(),
                "If you unsuccessfully roll to use the equipped Hero card's effect, DRAW a card.".to_string(),
                "cards/items/particularly_rusty_coin.jpg".to_string(),
                None,
                vec![],
                None,
                Some(MagicSpell::CallToTheFallen),
                Some(HeroStatusEffect::DrawOnUnsuccessfulRollForAbility(1)),
            ),
            AnotherItemType::NotMask(Item::SealingKey) => CardSpec::from_parts(
                CardType::Item(ItemType::Cursed),
                1,
                "Sealing Key".to_string(),
                "You cannot use the equipped Hero card's effect.".to_string(),
                "cards/cursed_items/sealing_key.jpg".to_string(),
                None,
                vec![],
                None,
                Some(MagicSpell::CallToTheFallen),
                Some(HeroStatusEffect::RemoveAbility),
            ),
            AnotherItemType::NotMask(Item::SuspiciouslyShinyCoin) => CardSpec::from_parts(
                CardType::Item(ItemType::Cursed),
                1,
                "Suspiciously Shiny Coin".to_string(),
                "If you sucessfully roll to use the equipped Hero card's effect, DISCARD a card.".to_string(),
                "cards/cursed_items/suspiciously_shiny_coin.jpg".to_string(),
                None,
                vec![],
                None,
                Some(MagicSpell::CallToTheFallen),
                Some(HeroStatusEffect::DiscardOnSuccessfulRollForAbility(1)),
            ),
            AnotherItemType::NotMask(Item::CurseOfTheSnakesEyes) => CardSpec::from_parts(
                CardType::Item(ItemType::Cursed),
                2,
                "Curse of the Snake's Eyes".to_string(),
                "Each time you roll to use the equipped Hero card's effect, -2 to your roll.".to_string(),
                "cards/cursed_items/curse_of_the_snakes_eyes.jpg".to_string(),
                None,
                vec![],
                None,
                Some(MagicSpell::CallToTheFallen),
                Some(HeroStatusEffect::AddToRollForAbility(-2i32)),
            ),
    }
}

fn challenge_card_spec() -> (r: CardSpec)
    ensures
        r@ == challenge_card_spec_view(),
{
    CardSpec::from_parts(
                CardType::Challenge,
                8,
                "Challenge".to_string(),
                "You may play this card when another player attempts to play a Hero, Item, or Magic card. CHALLENGE that card.".to_string(),
                "cards/challenge/challenge.jpg".to_string(),
                None,
                vec![],
                None,
                None,
                None,
            )
}

impl SlayCardSpec {
    pub fn get_card_spec_creation(self: &SlayCardSpec) -> (r: CardSpec)
        ensures
            r@ == card_spec_view(*self),
    {
        match self {
            SlayCardSpec::HeroCard(hero) => hero_card_spec(*hero),
            SlayCardSpec::PartyLeader(hero_type) => leader_card_spec(*hero_type),
            SlayCardSpec::MonsterCard(monster) => monster_card_spec(*monster),
            SlayCardSpec::MagicCard(spell) => magic_card_spec(*spell),
            SlayCardSpec::ModifierCard(kind) => modifier_card_spec(*kind),
            SlayCardSpec::Item(item) => item_card_spec(*item),
            SlayCardSpec::Challenge => challenge_card_spec(),
        }
    }
}

/// The hero cards, each once, in the order of their declaration.
pub open spec fn hero_cards() -> Seq<SlayCardSpec> {
    seq![
        SlayCardSpec::HeroCard(HeroAbilityType::PlunderingPuma),
        SlayCardSpec::HeroCard(HeroAbilityType::SlipperyPaws),
        SlayCardSpec::HeroCard(HeroAbilityType::SmoothMimimeow),
        SlayCardSpec::HeroCard(HeroAbilityType::Meowzio),
        SlayCardSpec::HeroCard(HeroAbilityType::Shurikitty),
        SlayCardSpec::HeroCard(HeroAbilityType::KitNapper),
        SlayCardSpec::HeroCard(HeroAbilityType::SilentShadow),
        SlayCardSpec::HeroCard(HeroAbilityType::SlyPickings),
        SlayCardSpec::HeroCard(HeroAbilityType::HolyCurselifter),
        SlayCardSpec::HeroCard(HeroAbilityType::IronResolve),
        SlayCardSpec::HeroCard(HeroAbilityType::CalmingVoice),
        SlayCardSpec::HeroCard(HeroAbilityType::VibrantGlow),
        SlayCardSpec::HeroCard(HeroAbilityType::MightyBlade),
        SlayCardSpec::HeroCard(HeroAbilityType::RadiantHorn),
        SlayCardSpec::HeroCard(HeroAbilityType::GuidingLight),
        SlayCardSpec::HeroCard(HeroAbilityType::WiseShield),
        SlayCardSpec::HeroCard(HeroAbilityType::QiBear),
        SlayCardSpec::HeroCard(HeroAbilityType::PanChucks),
        SlayCardSpec::HeroCard(HeroAbilityType::HeavyBear),
        SlayCardSpec::HeroCard(HeroAbilityType::BadAxe),
        SlayCardSpec::HeroCard(HeroAbilityType::ToughTeddy),
        SlayCardSpec::HeroCard(HeroAbilityType::BearClaw),
        SlayCardSpec::HeroCard(HeroAbilityType::FuryKnuckle),
        SlayCardSpec::HeroCard(HeroAbilityType::BearyWise),
        SlayCardSpec::HeroCard(HeroAbilityType::Hook),
        SlayCardSpec::HeroCard(HeroAbilityType::Wildshot),
        SlayCardSpec::HeroCard(HeroAbilityType::SeriousGrey),
        SlayCardSpec::HeroCard(HeroAbilityType::WilyRed),
        SlayCardSpec::HeroCard(HeroAbilityType::QuickDraw),
        SlayCardSpec::HeroCard(HeroAbilityType::LookieRookie),
        SlayCardSpec::HeroCard(HeroAbilityType::Bullseye),
        SlayCardSpec::HeroCard(HeroAbilityType::SharpFox),
        SlayCardSpec::HeroCard(HeroAbilityType::FuzzyCheeks),
        SlayCardSpec::HeroCard(HeroAbilityType::Peanut),
        SlayCardSpec::HeroCard(HeroAbilityType::NappingNibbles),
        SlayCardSpec::HeroCard(HeroAbilityType::TipsyTootie),
        SlayCardSpec::HeroCard(HeroAbilityType::MellowDee),
        SlayCardSpec::HeroCard(HeroAbilityType::LuckBucky),
        SlayCardSpec::HeroCard(HeroAbilityType::DodgyDealer),
        SlayCardSpec::HeroCard(HeroAbilityType::GreedyCheeks),
        SlayCardSpec::HeroCard(HeroAbilityType::Fluffy),
        SlayCardSpec::HeroCard(HeroAbilityType::Wiggles),
        SlayCardSpec::HeroCard(HeroAbilityType::Spooky),
        SlayCardSpec::HeroCard(HeroAbilityType::Snowball),
        SlayCardSpec::HeroCard(HeroAbilityType::Buttons),
        SlayCardSpec::HeroCard(HeroAbilityType::BunBun),
        SlayCardSpec::HeroCard(HeroAbilityType::Hopper),
        SlayCardSpec::HeroCard(HeroAbilityType::Whiskers),
    ]
}

/// The party leader cards, each once, in the order of their declaration.
pub open spec fn leader_cards() -> Seq<SlayCardSpec> {
    seq![
        SlayCardSpec::PartyLeader(HeroType::Bard),
        SlayCardSpec::PartyLeader(HeroType::Wizard),
        SlayCardSpec::PartyLeader(HeroType::Fighter),
        SlayCardSpec::PartyLeader(HeroType::Gaurdian),
        SlayCardSpec::PartyLeader(HeroType::Ranger),
        SlayCardSpec::PartyLeader(HeroType::Thief),
    ]
}

/// The monster cards, each once, in the order of their declaration.
pub open spec fn monster_cards() -> Seq<SlayCardSpec> {
    seq![
        SlayCardSpec::MonsterCard(Monster::AnuranCauldron),
        SlayCardSpec::MonsterCard(Monster::TitanWyvern),
        SlayCardSpec::MonsterCard(Monster::DarkDragonKing),
        SlayCardSpec::MonsterCard(Monster::AbyssQueen),
        SlayCardSpec::MonsterCard(Monster::RexMajor),
        SlayCardSpec::MonsterCard(Monster::CorruptedSabretooth),
        SlayCardSpec::MonsterCard(Monster::CrownedSerpent),
        SlayCardSpec::MonsterCard(Monster::WarwornOwlbear),
        SlayCardSpec::MonsterCard(Monster::Dracos),
        SlayCardSpec::MonsterCard(Monster::Malammoth),
        SlayCardSpec::MonsterCard(Monster::Bloodwing),
        SlayCardSpec::MonsterCard(Monster::ArcticAries),
        SlayCardSpec::MonsterCard(Monster::MegaSlime),
        SlayCardSpec::MonsterCard(Monster::Orthus),
        SlayCardSpec::MonsterCard(Monster::Terratuga),
    ]
}

/// The magic cards, each once, in the order of their declaration.
pub open spec fn magic_cards() -> Seq<SlayCardSpec> {
    seq![
        SlayCardSpec::MagicCard(MagicSpell::EnganglingTrap),
        SlayCardSpec::MagicCard(MagicSpell::CriticalBoost),
        SlayCardSpec::MagicCard(MagicSpell::DestructiveSpell),
        SlayCardSpec::MagicCard(MagicSpell::WindsOfChange),
        SlayCardSpec::MagicCard(MagicSpell::EnchangedSpell),
        SlayCardSpec::MagicCard(MagicSpell::ForcedExchange),
        SlayCardSpec::MagicCard(MagicSpell::ForcefulWinds),
        SlayCardSpec::MagicCard(MagicSpell::CallToTheFallen),
    ]
}

/// The modifier cards, each once, in the order of their declaration.
pub open spec fn modifier_cards() -> Seq<SlayCardSpec> {
    seq![
        SlayCardSpec::ModifierCard(ModifierKinds::Plus4),
        SlayCardSpec::ModifierCard(ModifierKinds::Plus3Minus1),
        SlayCardSpec::ModifierCard(ModifierKinds::Plus2Minus2),
        SlayCardSpec::ModifierCard(ModifierKinds::Plus1Minus3),
        SlayCardSpec::ModifierCard(ModifierKinds::Minus4),
    ]
}

/// The item cards, each once, in the order of their declaration.
pub open spec fn item_cards() -> Seq<SlayCardSpec> {
    seq![
        SlayCardSpec::Item(AnotherItemType::MaskCard(HeroType::Bard)),
        SlayCardSpec::Item(AnotherItemType::MaskCard(HeroType::Wizard)),
        SlayCardSpec::Item(AnotherItemType::MaskCard(HeroType::Fighter)),
        SlayCardSpec::Item(AnotherItemType::MaskCard(HeroType::Gaurdian)),
        SlayCardSpec::Item(AnotherItemType::MaskCard(HeroType::Ranger)),
        SlayCardSpec::Item(AnotherItemType::MaskCard(HeroType::Thief)),
        SlayCardSpec::Item(AnotherItemType::NotMask(Item::DecoyDoll)),
        SlayCardSpec::Item(AnotherItemType::NotMask(Item::ReallyBigRing)),
        SlayCardSpec::Item(AnotherItemType::NotMask(Item::ParticularlyRustyCoin)),
        SlayCardSpec::Item(AnotherItemType::NotMask(Item::SealingKey)),
        SlayCardSpec::Item(AnotherItemType::NotMask(Item::SuspiciouslyShinyCoin)),
        SlayCardSpec::Item(AnotherItemType::NotMask(Item::CurseOfTheSnakesEyes)),
    ]
}

/// The challenge card, each once, in the order of their declaration.
pub open spec fn challenge_cards() -> Seq<SlayCardSpec> {
    seq![
        SlayCardSpec::Challenge,
    ]
}

/// Every card of the game, each once, in the order of the enumeration's declaration.
pub open spec fn all_cards() -> Seq<SlayCardSpec> {
    hero_cards() + leader_cards() + monster_cards() + magic_cards() + modifier_cards() + item_cards() + challenge_cards()
}

/// Every card of the game, each once, in the order of the printed card list.
pub open spec fn card_list() -> Seq<SlayCardSpec> {
    seq![
        SlayCardSpec::Challenge,
        SlayCardSpec::ModifierCard(ModifierKinds::Plus4),
        SlayCardSpec::ModifierCard(ModifierKinds::Plus3Minus1),
        SlayCardSpec::ModifierCard(ModifierKinds::Plus2Minus2),
        SlayCardSpec::ModifierCard(ModifierKinds::Plus1Minus3),
        SlayCardSpec::ModifierCard(ModifierKinds::Minus4),
        SlayCardSpec::HeroCard(HeroAbilityType::PlunderingPuma),
        SlayCardSpec::HeroCard(HeroAbilityType::SlipperyPaws),
        SlayCardSpec::HeroCard(HeroAbilityType::SmoothMimimeow),
        SlayCardSpec::HeroCard(HeroAbilityType::Meowzio),
        SlayCardSpec::HeroCard(HeroAbilityType::Shurikitty),
        SlayCardSpec::HeroCard(HeroAbilityType::KitNapper),
        SlayCardSpec::HeroCard(HeroAbilityType::SilentShadow),
        SlayCardSpec::HeroCard(HeroAbilityType::SlyPickings),
        SlayCardSpec::HeroCard(HeroAbilityType::HolyCurselifter),
        SlayCardSpec::HeroCard(HeroAbilityType::IronResolve),
        SlayCardSpec::HeroCard(HeroAbilityType::CalmingVoice),
        SlayCardSpec::HeroCard(HeroAbilityType::VibrantGlow),
        SlayCardSpec::HeroCard(HeroAbilityType::MightyBlade),
        SlayCardSpec::HeroCard(HeroAbilityType::RadiantHorn),
        SlayCardSpec::HeroCard(HeroAbilityType::GuidingLight),
        SlayCardSpec::HeroCard(HeroAbilityType::WiseShield),
        SlayCardSpec::HeroCard(HeroAbilityType::QiBear),
        SlayCardSpec::HeroCard(HeroAbilityType::PanChucks),
        SlayCardSpec::HeroCard(HeroAbilityType::HeavyBear),
        SlayCardSpec::HeroCard(HeroAbilityType::BadAxe),
        SlayCardSpec::HeroCard(HeroAbilityType::ToughTeddy),
        SlayCardSpec::HeroCard(HeroAbilityType::BearClaw),
        SlayCardSpec::HeroCard(HeroAbilityType::FuryKnuckle),
        SlayCardSpec::HeroCard(HeroAbilityType::BearyWise),
        SlayCardSpec::HeroCard(HeroAbilityType::Hook),
        SlayCardSpec::HeroCard(HeroAbilityType::Wildshot),
        SlayCardSpec::HeroCard(HeroAbilityType::SeriousGrey),
        SlayCardSpec::HeroCard(HeroAbilityType::WilyRed),
        SlayCardSpec::HeroCard(HeroAbilityType::QuickDraw),
        SlayCardSpec::HeroCard(HeroAbilityType::LookieRookie),
        SlayCardSpec::HeroCard(HeroAbilityType::Bullseye),
        SlayCardSpec::HeroCard(HeroAbilityType::SharpFox),
        SlayCardSpec::HeroCard(HeroAbilityType::FuzzyCheeks),
        SlayCardSpec::HeroCard(HeroAbilityType::Peanut),
        SlayCardSpec::HeroCard(HeroAbilityType::NappingNibbles),
        SlayCardSpec::HeroCard(HeroAbilityType::TipsyTootie),
        SlayCardSpec::HeroCard(HeroAbilityType::MellowDee),
        SlayCardSpec::HeroCard(HeroAbilityType::LuckBucky),
        SlayCardSpec::HeroCard(HeroAbilityType::DodgyDealer),
        SlayCardSpec::HeroCard(HeroAbilityType::GreedyCheeks),
        SlayCardSpec::HeroCard(HeroAbilityType::Fluffy),
        SlayCardSpec::HeroCard(HeroAbilityType::Wiggles),
        SlayCardSpec::HeroCard(HeroAbilityType::Spooky),
        SlayCardSpec::HeroCard(HeroAbilityType::Snowball),
        SlayCardSpec::HeroCard(HeroAbilityType::Buttons),
        SlayCardSpec::HeroCard(HeroAbilityType::BunBun),
        SlayCardSpec::HeroCard(HeroAbilityType::Hopper),
        SlayCardSpec::HeroCard(HeroAbilityType::Whiskers),
        SlayCardSpec::MagicCard(MagicSpell::EnganglingTrap),
        SlayCardSpec::MagicCard(MagicSpell::CriticalBoost),
        SlayCardSpec::MagicCard(MagicSpell::DestructiveSpell),
        SlayCardSpec::MagicCard(MagicSpell::WindsOfChange),
        SlayCardSpec::MagicCard(MagicSpell::EnchangedSpell),
        SlayCardSpec::MagicCard(MagicSpell::ForcedExchange),
        SlayCardSpec::MagicCard(MagicSpell::ForcefulWinds),
        SlayCardSpec::MagicCard(MagicSpell::CallToTheFallen),
        SlayCardSpec::Item(AnotherItemType::MaskCard(HeroType::Bard)),
        SlayCardSpec::Item(AnotherItemType::MaskCard(HeroType::Ranger)),
        SlayCardSpec::Item(AnotherItemType::MaskCard(HeroType::Fighter)),
        SlayCardSpec::Item(AnotherItemType::MaskCard(HeroType::Thief)),
        SlayCardSpec::Item(AnotherItemType::MaskCard(HeroType::Gaurdian)),
        SlayCardSpec::Item(AnotherItemType::MaskCard(HeroType::Wizard)),
        SlayCardSpec::Item(AnotherItemType::NotMask(Item::DecoyDoll)),
        SlayCardSpec::Item(AnotherItemType::NotMask(Item::ReallyBigRing)),
        SlayCardSpec::Item(AnotherItemType::NotMask(Item::ParticularlyRustyCoin)),
        SlayCardSpec::Item(AnotherItemType::NotMask(Item::SealingKey)),
        SlayCardSpec::Item(AnotherItemType::NotMask(Item::SuspiciouslyShinyCoin)),
        SlayCardSpec::Item(AnotherItemType::NotMask(Item::CurseOfTheSnakesEyes)),
        SlayCardSpec::PartyLeader(HeroType::Fighter),
        SlayCardSpec::PartyLeader(HeroType::Wizard),
        SlayCardSpec::PartyLeader(HeroType::Gaurdian),
        SlayCardSpec::PartyLeader(HeroType::Thief),
        SlayCardSpec::PartyLeader(HeroType::Bard),
        SlayCardSpec::PartyLeader(HeroType::Ranger),
        SlayCardSpec::MonsterCard(Monster::AnuranCauldron),
        SlayCardSpec::MonsterCard(Monster::TitanWyvern),
        SlayCardSpec::MonsterCard(Monster::DarkDragonKing),
        SlayCardSpec::MonsterCard(Monster::AbyssQueen),
        SlayCardSpec::MonsterCard(Monster::RexMajor),
        SlayCardSpec::MonsterCard(Monster::CorruptedSabretooth),
        SlayCardSpec::MonsterCard(Monster::CrownedSerpent),
        SlayCardSpec::MonsterCard(Monster::WarwornOwlbear),
        SlayCardSpec::MonsterCard(Monster::Dracos),
        SlayCardSpec::MonsterCard(Monster::Malammoth),
        SlayCardSpec::MonsterCard(Monster::Bloodwing),
        SlayCardSpec::MonsterCard(Monster::ArcticAries),
        SlayCardSpec::MonsterCard(Monster::MegaSlime),
        SlayCardSpec::MonsterCard(Monster::Orthus),
        SlayCardSpec::MonsterCard(Monster::Terratuga),
    ]
}

/// Every card of the game, each once, in the order of the enumeration's declaration.
pub fn all_card_specs() -> (r: Vec<SlayCardSpec>)
    ensures
        r@ == all_cards(),
{
    let mut heroes: Vec<SlayCardSpec> = vec![
        SlayCardSpec::HeroCard(HeroAbilityType::PlunderingPuma),
        SlayCardSpec::HeroCard(HeroAbilityType::SlipperyPaws),
        SlayCardSpec::HeroCard(HeroAbilityType::SmoothMimimeow),
        SlayCardSpec::HeroCard(HeroAbilityType::Meowzio),
        SlayCardSpec::HeroCard(HeroAbilityType::Shurikitty),
        SlayCardSpec::HeroCard(HeroAbilityType::KitNapper),
        SlayCardSpec::HeroCard(HeroAbilityType::SilentShadow),
        SlayCardSpec::HeroCard(HeroAbilityType::SlyPickings),
        SlayCardSpec::HeroCard(HeroAbilityType::HolyCurselifter),
        SlayCardSpec::HeroCard(HeroAbilityType::IronResolve),
        SlayCardSpec::HeroCard(HeroAbilityType::CalmingVoice),
        SlayCardSpec::HeroCard(HeroAbilityType::VibrantGlow),
        SlayCardSpec::HeroCard(HeroAbilityType::MightyBlade),
        SlayCardSpec::HeroCard(HeroAbilityType::RadiantHorn),
        SlayCardSpec::HeroCard(HeroAbilityType::GuidingLight),
        SlayCardSpec::HeroCard(HeroAbilityType::WiseShield),
        SlayCardSpec::HeroCard(HeroAbilityType::QiBear),
        SlayCardSpec::HeroCard(HeroAbilityType::PanChucks),
        SlayCardSpec::HeroCard(HeroAbilityType::HeavyBear),
        SlayCardSpec::HeroCard(HeroAbilityType::BadAxe),
        SlayCardSpec::HeroCard(HeroAbilityType::ToughTeddy),
        SlayCardSpec::HeroCard(HeroAbilityType::BearClaw),
        SlayCardSpec::HeroCard(HeroAbilityType::FuryKnuckle),
        SlayCardSpec::HeroCard(HeroAbilityType::BearyWise),
        SlayCardSpec::HeroCard(HeroAbilityType::Hook),
        SlayCardSpec::HeroCard(HeroAbilityType::Wildshot),
        SlayCardSpec::HeroCard(HeroAbilityType::SeriousGrey),
        SlayCardSpec::HeroCard(HeroAbilityType::WilyRed),
        SlayCardSpec::HeroCard(HeroAbilityType::QuickDraw),
        SlayCardSpec::HeroCard(HeroAbilityType::LookieRookie),
        SlayCardSpec::HeroCard(HeroAbilityType::Bullseye),
        SlayCardSpec::HeroCard(HeroAbilityType::SharpFox),
        SlayCardSpec::HeroCard(HeroAbilityType::FuzzyCheeks),
        SlayCardSpec::HeroCard(HeroAbilityType::Peanut),
        SlayCardSpec::HeroCard(HeroAbilityType::NappingNibbles),
        SlayCardSpec::HeroCard(HeroAbilityType::TipsyTootie),
        SlayCardSpec::HeroCard(HeroAbilityType::MellowDee),
        SlayCardSpec::HeroCard(HeroAbilityType::LuckBucky),
        SlayCardSpec::HeroCard(HeroAbilityType::DodgyDealer),
        SlayCardSpec::HeroCard(HeroAbilityType::GreedyCheeks),
        SlayCardSpec::HeroCard(HeroAbilityType::Fluffy),
        SlayCardSpec::HeroCard(HeroAbilityType::Wiggles),
        SlayCardSpec::HeroCard(HeroAbilityType::Spooky),
        SlayCardSpec::HeroCard(HeroAbilityType::Snowball),
        SlayCardSpec::HeroCard(HeroAbilityType::Buttons),
        SlayCardSpec::HeroCard(HeroAbilityType::BunBun),
        SlayCardSpec::HeroCard(HeroAbilityType::Hopper),
        SlayCardSpec::HeroCard(HeroAbilityType::Whiskers),
    ];
    let mut leaders: Vec<SlayCardSpec> = vec![
        SlayCardSpec::PartyLeader(HeroType::Bard),
        SlayCardSpec::PartyLeader(HeroType::Wizard),
        SlayCardSpec::PartyLeader(HeroType::Fighter),
        SlayCardSpec::PartyLeader(HeroType::Gaurdian),
        SlayCardSpec::PartyLeader(HeroType::Ranger),
        SlayCardSpec::PartyLeader(HeroType::Thief),
    ];
    let mut monsters: Vec<SlayCardSpec> = vec![
        SlayCardSpec::MonsterCard(Monster::AnuranCauldron),
        SlayCardSpec::MonsterCard(Monster::TitanWyvern),
        SlayCardSpec::MonsterCard(Monster::DarkDragonKing),
        SlayCardSpec::MonsterCard(Monster::AbyssQueen),
        SlayCardSpec::MonsterCard(Monster::RexMajor),
        SlayCardSpec::MonsterCard(Monster::CorruptedSabretooth),
        SlayCardSpec::MonsterCard(Monster::CrownedSerpent),
        SlayCardSpec::MonsterCard(Monster::WarwornOwlbear),
        SlayCardSpec::MonsterCard(Monster::Dracos),
        SlayCardSpec::MonsterCard(Monster::Malammoth),
        SlayCardSpec::MonsterCard(Monster::Bloodwing),
        SlayCardSpec::MonsterCard(Monster::ArcticAries),
        SlayCardSpec::MonsterCard(Monster::MegaSlime),
        SlayCardSpec::MonsterCard(Monster::Orthus),
        SlayCardSpec::MonsterCard(Monster::Terratuga),
    ];
    let mut spells: Vec<SlayCardSpec> = vec![
        SlayCardSpec::MagicCard(MagicSpell::EnganglingTrap),
        SlayCardSpec::MagicCard(MagicSpell::CriticalBoost),
        SlayCardSpec::MagicCard(MagicSpell::DestructiveSpell),
        SlayCardSpec::MagicCard(MagicSpell::WindsOfChange),
        SlayCardSpec::MagicCard(MagicSpell::EnchangedSpell),
        SlayCardSpec::MagicCard(MagicSpell::ForcedExchange),
        SlayCardSpec::MagicCard(MagicSpell::ForcefulWinds),
        SlayCardSpec::MagicCard(MagicSpell::CallToTheFallen),
    ];
    let mut modifiers: Vec<SlayCardSpec> = vec![
        SlayCardSpec::ModifierCard(ModifierKinds::Plus4),
        SlayCardSpec::ModifierCard(ModifierKinds::Plus3Minus1),
        SlayCardSpec::ModifierCard(ModifierKinds::Plus2Minus2),
        SlayCardSpec::ModifierCard(ModifierKinds::Plus1Minus3),
        SlayCardSpec::ModifierCard(ModifierKinds::Minus4),
    ];
    let mut items: Vec<SlayCardSpec> = vec![
        SlayCardSpec::Item(AnotherItemType::MaskCard(HeroType::Bard)),
        SlayCardSpec::Item(AnotherItemType::MaskCard(HeroType::Wizard)),
        SlayCardSpec::Item(AnotherItemType::MaskCard(HeroType::Fighter)),
        SlayCardSpec::Item(AnotherItemType::MaskCard(HeroType::Gaurdian)),
        SlayCardSpec::Item(AnotherItemType::MaskCard(HeroType::Ranger)),
        SlayCardSpec::Item(AnotherItemType::MaskCard(HeroType::Thief)),
        SlayCardSpec::Item(AnotherItemType::NotMask(Item::DecoyDoll)),
        SlayCardSpec::Item(AnotherItemType::NotMask(Item::ReallyBigRing)),
        SlayCardSpec::Item(AnotherItemType::NotMask(Item::ParticularlyRustyCoin)),
        SlayCardSpec::Item(AnotherItemType::NotMask(Item::SealingKey)),
        SlayCardSpec::Item(AnotherItemType::NotMask(Item::SuspiciouslyShinyCoin)),
        SlayCardSpec::Item(AnotherItemType::NotMask(Item::CurseOfTheSnakesEyes)),
    ];
    let mut challenges: Vec<SlayCardSpec> = vec![
        SlayCardSpec::Challenge,
    ];
    let mut r: Vec<SlayCardSpec> = Vec::new();
    r.append(&mut heroes);
    r.append(&mut leaders);
    r.append(&mut monsters);
    r.append(&mut spells);
    r.append(&mut modifiers);
    r.append(&mut items);
    r.append(&mut challenges);
    assert(r@ =~= all_cards());
    r
}

/// Every card of the game, each once, in the order of the printed card list.
pub fn list_cards() -> (r: Vec<SlayCardSpec>)
    ensures
        r@ == card_list(),
{
    vec![
        SlayCardSpec::Challenge,
        SlayCardSpec::ModifierCard(ModifierKinds::Plus4),
        SlayCardSpec::ModifierCard(ModifierKinds::Plus3Minus1),
        SlayCardSpec::ModifierCard(ModifierKinds::Plus2Minus2),
        SlayCardSpec::ModifierCard(ModifierKinds::Plus1Minus3),
        SlayCardSpec::ModifierCard(ModifierKinds::Minus4),
        SlayCardSpec::HeroCard(HeroAbilityType::PlunderingPuma),
        SlayCardSpec::HeroCard(HeroAbilityType::SlipperyPaws),
        SlayCardSpec::HeroCard(HeroAbilityType::SmoothMimimeow),
        SlayCardSpec::HeroCard(HeroAbilityType::Meowzio),
        SlayCardSpec::HeroCard(HeroAbilityType::Shurikitty),
        SlayCardSpec::HeroCard(HeroAbilityType::KitNapper),
        SlayCardSpec::HeroCard(HeroAbilityType::SilentShadow),
        SlayCardSpec::HeroCard(HeroAbilityType::SlyPickings),
        SlayCardSpec::HeroCard(HeroAbilityType::HolyCurselifter),
        SlayCardSpec::HeroCard(HeroAbilityType::IronResolve),
        SlayCardSpec::HeroCard(HeroAbilityType::CalmingVoice),
        SlayCardSpec::HeroCard(HeroAbilityType::VibrantGlow),
        SlayCardSpec::HeroCard(HeroAbilityType::MightyBlade),
        SlayCardSpec::HeroCard(HeroAbilityType::RadiantHorn),
        SlayCardSpec::HeroCard(HeroAbilityType::GuidingLight),
        SlayCardSpec::HeroCard(HeroAbilityType::WiseShield),
        SlayCardSpec::HeroCard(HeroAbilityType::QiBear),
        SlayCardSpec::HeroCard(HeroAbilityType::PanChucks),
        SlayCardSpec::HeroCard(HeroAbilityType::HeavyBear),
        SlayCardSpec::HeroCard(HeroAbilityType::BadAxe),
        SlayCardSpec::HeroCard(HeroAbilityType::ToughTeddy),
        SlayCardSpec::HeroCard(HeroAbilityType::BearClaw),
        SlayCardSpec::HeroCard(HeroAbilityType::FuryKnuckle),
        SlayCardSpec::HeroCard(HeroAbilityType::BearyWise),
        SlayCardSpec::HeroCard(HeroAbilityType::Hook),
        SlayCardSpec::HeroCard(HeroAbilityType::Wildshot),
        SlayCardSpec::HeroCard(HeroAbilityType::SeriousGrey),
        SlayCardSpec::HeroCard(HeroAbilityType::WilyRed),
        SlayCardSpec::HeroCard(HeroAbilityType::QuickDraw),
        SlayCardSpec::HeroCard(HeroAbilityType::LookieRookie),
        SlayCardSpec::HeroCard(HeroAbilityType::Bullseye),
        SlayCardSpec::HeroCard(HeroAbilityType::SharpFox),
        SlayCardSpec::HeroCard(HeroAbilityType::FuzzyCheeks),
        SlayCardSpec::HeroCard(HeroAbilityType::Peanut),
        SlayCardSpec::HeroCard(HeroAbilityType::NappingNibbles),
        SlayCardSpec::HeroCard(HeroAbilityType::TipsyTootie),
        SlayCardSpec::HeroCard(HeroAbilityType::MellowDee),
        SlayCardSpec::HeroCard(HeroAbilityType::LuckBucky),
        SlayCardSpec::HeroCard(HeroAbilityType::DodgyDealer),
        SlayCardSpec::HeroCard(HeroAbilityType::GreedyCheeks),
        SlayCardSpec::HeroCard(HeroAbilityType::Fluffy),
        SlayCardSpec::HeroCard(HeroAbilityType::Wiggles),
        SlayCardSpec::HeroCard(HeroAbilityType::Spooky),
        SlayCardSpec::HeroCard(HeroAbilityType::Snowball),
        SlayCardSpec::HeroCard(HeroAbilityType::Buttons),
        SlayCardSpec::HeroCard(HeroAbilityType::BunBun),
        SlayCardSpec::HeroCard(HeroAbilityType::Hopper),
        SlayCardSpec::HeroCard(HeroAbilityType::Whiskers),
        SlayCardSpec::MagicCard(MagicSpell::EnganglingTrap),
        SlayCardSpec::MagicCard(MagicSpell::CriticalBoost),
        SlayCardSpec::MagicCard(MagicSpell::DestructiveSpell),
        SlayCardSpec::MagicCard(MagicSpell::WindsOfChange),
        SlayCardSpec::MagicCard(MagicSpell::EnchangedSpell),
        SlayCardSpec::MagicCard(MagicSpell::ForcedExchange),
        SlayCardSpec::MagicCard(MagicSpell::ForcefulWinds),
        SlayCardSpec::MagicCard(MagicSpell::CallToTheFallen),
        SlayCardSpec::Item(AnotherItemType::MaskCard(HeroType::Bard)),
        SlayCardSpec::Item(AnotherItemType::MaskCard(HeroType::Ranger)),
        SlayCardSpec::Item(AnotherItemType::MaskCard(HeroType::Fighter)),
        SlayCardSpec::Item(AnotherItemType::MaskCard(HeroType::Thief)),
        SlayCardSpec::Item(AnotherItemType::MaskCard(HeroType::Gaurdian)),
        SlayCardSpec::Item(AnotherItemType::MaskCard(HeroType::Wizard)),
        SlayCardSpec::Item(AnotherItemType::NotMask(Item::DecoyDoll)),
        SlayCardSpec::Item(AnotherItemType::NotMask(Item::ReallyBigRing)),
        SlayCardSpec::Item(AnotherItemType::NotMask(Item::ParticularlyRustyCoin)),
        SlayCardSpec::Item(AnotherItemType::NotMask(Item::SealingKey)),
        SlayCardSpec::Item(AnotherItemType::NotMask(Item::SuspiciouslyShinyCoin)),
        SlayCardSpec::Item(AnotherItemType::NotMask(Item::CurseOfTheSnakesEyes)),
        SlayCardSpec::PartyLeader(HeroType::Fighter),
        SlayCardSpec::PartyLeader(HeroType::Wizard),
        SlayCardSpec::PartyLeader(HeroType::Gaurdian),
        SlayCardSpec::PartyLeader(HeroType::Thief),
        SlayCardSpec::PartyLeader(HeroType::Bard),
        SlayCardSpec::PartyLeader(HeroType::Ranger),
        SlayCardSpec::MonsterCard(Monster::AnuranCauldron),
        SlayCardSpec::MonsterCard(Monster::TitanWyvern),
        SlayCardSpec::MonsterCard(Monster::DarkDragonKing),
        SlayCardSpec::MonsterCard(Monster::AbyssQueen),
        SlayCardSpec::MonsterCard(Monster::RexMajor),
        SlayCardSpec::MonsterCard(Monster::CorruptedSabretooth),
        SlayCardSpec::MonsterCard(Monster::CrownedSerpent),
        SlayCardSpec::MonsterCard(Monster::WarwornOwlbear),
        SlayCardSpec::MonsterCard(Monster::Dracos),
        SlayCardSpec::MonsterCard(Monster::Malammoth),
        SlayCardSpec::MonsterCard(Monster::Bloodwing),
        SlayCardSpec::MonsterCard(Monster::ArcticAries),
        SlayCardSpec::MonsterCard(Monster::MegaSlime),
        SlayCardSpec::MonsterCard(Monster::Orthus),
        SlayCardSpec::MonsterCard(Monster::Terratuga),
    ]
}

/// The deck that a card starts the game in: the party leaders, the monsters still to come,
/// or the draw pile.
pub open spec fn start_deck(card: SlayCardSpec) -> DeckPath {
    match card {
        SlayCardSpec::PartyLeader(_) => DeckPath::PartyLeaders,
        SlayCardSpec::MonsterCard(_) => DeckPath::NextMonsters,
        _ => DeckPath::Draw,
    }
}

/// Every card has at least one copy, and starts the game in the deck of its kind.
pub proof fn lemma_card_deck(card: SlayCardSpec)
    ensures
        card_spec_view(card).repeat >= 1,
        initial_deck(card_spec_view(card).card_type) == start_deck(card),
{
    match card {
        SlayCardSpec::HeroCard(hero) => {
            assert(card_spec_view(card).repeat >= 1 && card_spec_view(card).card_type is Hero);
        },
        SlayCardSpec::PartyLeader(hero_type) => {
            assert(card_spec_view(card).repeat >= 1 && card_spec_view(card).card_type is PartyLeader);
        },
        SlayCardSpec::MonsterCard(monster) => {
            assert(card_spec_view(card).repeat >= 1 && card_spec_view(card).card_type is Monster);
        },
        SlayCardSpec::MagicCard(spell) => {
            assert(card_spec_view(card).repeat >= 1 && card_spec_view(card).card_type is Magic);
        },
        SlayCardSpec::ModifierCard(kind) => {
            assert(card_spec_view(card).repeat >= 1 && card_spec_view(card).card_type is Modifier);
        },
        SlayCardSpec::Item(item) => {
            assert(card_spec_view(card).repeat >= 1 && card_spec_view(card).card_type is Item);
        },
        SlayCardSpec::Challenge => {},
    }
}

/// The specification of a hero card names the hero's own ability, with the condition
/// that the ability states, and the hero's own class.
pub proof fn lemma_hero_card_ability(hero: HeroAbilityType)
    ensures
        card_spec_view(SlayCardSpec::HeroCard(hero)).hero_ability == Some(HeroAbility { condition: hero.spec_condition(), ability: hero }),
        card_spec_view(SlayCardSpec::HeroCard(hero)).card_type == CardType::Hero(hero.spec_hero_type()),
{
    match hero {
        HeroAbilityType::PlunderingPuma => {},
        HeroAbilityType::SlipperyPaws => {},
        HeroAbilityType::SmoothMimimeow => {},
        HeroAbilityType::Meowzio => {},
        HeroAbilityType::Shurikitty => {},
        HeroAbilityType::KitNapper => {},
        HeroAbilityType::SilentShadow => {},
        HeroAbilityType::SlyPickings => {},
        HeroAbilityType::HolyCurselifter => {},
        HeroAbilityType::IronResolve => {},
        HeroAbilityType::CalmingVoice => {},
        HeroAbilityType::VibrantGlow => {},
        HeroAbilityType::MightyBlade => {},
        HeroAbilityType::RadiantHorn => {},
        HeroAbilityType::GuidingLight => {},
        HeroAbilityType::WiseShield => {},
        HeroAbilityType::QiBear => {},
        HeroAbilityType::PanChucks => {},
        HeroAbilityType::HeavyBear => {},
        HeroAbilityType::BadAxe => {},
        HeroAbilityType::ToughTeddy => {},
        HeroAbilityType::BearClaw => {},
        HeroAbilityType::FuryKnuckle => {},
        HeroAbilityType::BearyWise => {},
        HeroAbilityType::Hook => {},
        HeroAbilityType::Wildshot => {},
        HeroAbilityType::SeriousGrey => {},
        HeroAbilityType::WilyRed => {},
        HeroAbilityType::QuickDraw => {},
        HeroAbilityType::LookieRookie => {},
        HeroAbilityType::Bullseye => {},
        HeroAbilityType::SharpFox => {},
        HeroAbilityType::FuzzyCheeks => {},
        HeroAbilityType::Peanut => {},
        HeroAbilityType::NappingNibbles => {},
        HeroAbilityType::TipsyTootie => {},
        HeroAbilityType::MellowDee => {},
        HeroAbilityType::LuckBucky => {},
        HeroAbilityType::DodgyDealer => {},
        HeroAbilityType::GreedyCheeks => {},
        HeroAbilityType::Fluffy => {},
        HeroAbilityType::Wiggles => {},
        HeroAbilityType::Spooky => {},
        HeroAbilityType::Snowball => {},
        HeroAbilityType::Buttons => {},
        HeroAbilityType::BunBun => {},
        HeroAbilityType::Hopper => {},
        HeroAbilityType::Whiskers => {},
    }
}

/// The label in a card's specification is the card's label, for every card but three of
/// the modifier cards, whose specification writes "modifier" in lower case.
pub proof fn lemma_card_label(card: SlayCardSpec)
    requires
        card != SlayCardSpec::ModifierCard(ModifierKinds::Plus2Minus2),
        card != SlayCardSpec::ModifierCard(ModifierKinds::Plus1Minus3),
        card != SlayCardSpec::ModifierCard(ModifierKinds::Minus4),
    ensures
        card_spec_view(card).label == card.spec_label(),
{
}


/// Every card's image is under "imgs/", at the path that the card's specification gives
/// (`get_card_spec_creation`); every path is under "imgs/cards/" and names a ".jpg" file.
pub proof fn lemma_image_path(card: SlayCardSpec)
    ensures
        card.spec_image_path() == "imgs/"@ + card_spec_view(card).image_path,
        card.spec_image_path().len() > 15,
        card.spec_image_path().take(11) == "imgs/cards/"@,
        card.spec_image_path().skip(card.spec_image_path().len() - 4) == ".jpg"@,
{
    reveal_strlit("imgs/");
    reveal_strlit("imgs/cards/");
    reveal_strlit(".jpg");

        match card {
            SlayCardSpec::HeroCard(hero_card) => match hero_card {
                HeroAbilityType::PlunderingPuma => { reveal_strlit("imgs/cards/heros/thief/plundering_puma.jpg"); reveal_strlit("cards/heros/thief/plundering_puma.jpg"); assert(card.spec_image_path() =~= "imgs/"@ + card_spec_view(card).image_path); assert(card.spec_image_path().take(11) =~= "imgs/cards/"@); assert(card.spec_image_path().skip(card.spec_image_path().len() - 4) =~= ".jpg"@); },
                HeroAbilityType::SlipperyPaws => { reveal_strlit("imgs/cards/heros/thief/slippery_paws.jpg"); reveal_strlit("cards/heros/thief/slippery_paws.jpg"); assert(card.spec_image_path() =~= "imgs/"@ + card_spec_view(card).image_path); assert(card.spec_image_path().take(11) =~= "imgs/cards/"@); assert(card.spec_image_path().skip(card.spec_image_path().len() - 4) =~= ".jpg"@); },
                HeroAbilityType::SmoothMimimeow => { reveal_strlit("imgs/cards/heros/thief/smooth_mimimeow.jpg"); reveal_strlit("cards/heros/thief/smooth_mimimeow.jpg"); assert(card.spec_image_path() =~= "imgs/"@ + card_spec_view(card).image_path); assert(card.spec_image_path().take(11) =~= "imgs/cards/"@); assert(card.spec_image_path().skip(card.spec_image_path().len() - 4) =~= ".jpg"@); },
                HeroAbilityType::Meowzio => { reveal_strlit("imgs/cards/heros/thief/meowzio.jpg"); reveal_strlit("cards/heros/thief/meowzio.jpg"); assert(card.spec_image_path() =~= "imgs/"@ + card_spec_view(card).image_path); assert(card.spec_image_path().take(11) =~= "imgs/cards/"@); assert(card.spec_image_path().skip(card.spec_image_path().len() - 4) =~= ".jpg"@); },
                HeroAbilityType::Shurikitty => { reveal_strlit("imgs/cards/heros/thief/shurikitty.jpg"); reveal_strlit("cards/heros/thief/shurikitty.jpg"); assert(card.spec_image_path() =~= "imgs/"@ + card_spec_view(card).image_path); assert(card.spec_image_path().take(11) =~= "imgs/cards/"@); assert(card.spec_image_path().skip(card.spec_image_path().len() - 4) =~= ".jpg"@); },
                HeroAbilityType::KitNapper => { reveal_strlit("imgs/cards/heros/thief/kit_napper.jpg"); reveal_strlit("cards/heros/thief/kit_napper.jpg"); assert(card.spec_image_path() =~= "imgs/"@ + card_spec_view(card).image_path); assert(card.spec_image_path().take(11) =~= "imgs/cards/"@); assert(card.spec_image_path().skip(card.spec_image_path().len() - 4) =~= ".jpg"@); },
                HeroAbilityType::SilentShadow => { reveal_strlit("imgs/cards/heros/thief/silent_shadow.jpg"); reveal_strlit("cards/heros/thief/silent_shadow.jpg"); assert(card.spec_image_path() =~= "imgs/"@ + card_spec_view(card).image_path); assert(card.spec_image_path().take(11) =~= "imgs/cards/"@); assert(card.spec_image_path().skip(card.spec_image_path().len() - 4) =~= ".jpg"@); },
                HeroAbilityType::SlyPickings => { reveal_strlit("imgs/cards/heros/thief/sly_pickings.jpg"); reveal_strlit("cards/heros/thief/sly_pickings.jpg"); assert(card.spec_image_path() =~= "imgs/"@ + card_spec_view(card).image_path); assert(card.spec_image_path().take(11) =~= "imgs/cards/"@); assert(card.spec_image_path().skip(card.spec_image_path().len() - 4) =~= ".jpg"@); },
                HeroAbilityType::HolyCurselifter => { reveal_strlit("imgs/cards/heros/guardian/holy_curse_lifter.jpg"); reveal_strlit("cards/heros/guardian/holy_curse_lifter.jpg"); assert(card.spec_image_path() =~= "imgs/"@ + card_spec_view(card).image_path); assert(card.spec_image_path().take(11) =~= "imgs/cards/"@); assert(card.spec_image_path().skip(card.spec_image_path().len() - 4) =~= ".jpg"@); },
                HeroAbilityType::IronResolve => { reveal_strlit("imgs/cards/heros/guardian/iron_resolve.jpg"); reveal_strlit("cards/heros/guardian/iron_resolve.jpg"); assert(card.spec_image_path() =~= "imgs/"@ + card_spec_view(card).image_path); assert(card.spec_image_path().take(11) =~= "imgs/cards/"@); assert(card.spec_image_path().skip(card.spec_image_path().len() - 4) =~= ".jpg"@); },
                HeroAbilityType::CalmingVoice => { reveal_strlit("imgs/cards/heros/guardian/calming_voice.jpg"); reveal_strlit("cards/heros/guardian/calming_voice.jpg"); assert(card.spec_image_path() =~= "imgs/"@ + card_spec_view(card).image_path); assert(card.spec_image_path().take(11) =~= "imgs/cards/"@); assert(card.spec_image_path().skip(card.spec_image_path().len() - 4) =~= ".jpg"@); },
                HeroAbilityType::VibrantGlow => { reveal_strlit("imgs/cards/heros/guardian/vibrant_glow.jpg"); reveal_strlit("cards/heros/guardian/vibrant_glow.jpg"); assert(card.spec_image_path() =~= "imgs/"@ + card_spec_view(card).image_path); assert(card.spec_image_path().take(11) =~= "imgs/cards/"@); assert(card.spec_image_path().skip(card.spec_image_path().len() - 4) =~= ".jpg"@); },
                HeroAbilityType::MightyBlade => { reveal_strlit("imgs/cards/heros/guardian/mighty_blade.jpg"); reveal_strlit("cards/heros/guardian/mighty_blade.jpg"); assert(card.spec_image_path() =~= "imgs/"@ + card_spec_view(card).image_path); assert(card.spec_image_path().take(11) =~= "imgs/cards/"@); assert(card.spec_image_path().skip(card.spec_image_path().len() - 4) =~= ".jpg"@); },
                HeroAbilityType::RadiantHorn => { reveal_strlit("imgs/cards/heros/guardian/radiant_horn.jpg"); reveal_strlit("cards/heros/guardian/radiant_horn.jpg"); assert(card.spec_image_path() =~= "imgs/"@ + card_spec_view(card).image_path); assert(card.spec_image_path().take(11) =~= "imgs/cards/"@); assert(card.spec_image_path().skip(card.spec_image_path().len() - 4) =~= ".jpg"@); },
                HeroAbilityType::GuidingLight => { reveal_strlit("imgs/cards/heros/guardian/guiding_light.jpg"); reveal_strlit("cards/heros/guardian/guiding_light.jpg"); assert(card.spec_image_path() =~= "imgs/"@ + card_spec_view(card).image_path); assert(card.spec_image_path().take(11) =~= "imgs/cards/"@); assert(card.spec_image_path().skip(card.spec_image_path().len() - 4) =~= ".jpg"@); },
                HeroAbilityType::WiseShield => { reveal_strlit("imgs/cards/heros/guardian/wise_shield.jpg"); reveal_strlit("cards/heros/guardian/wise_shield.jpg"); assert(card.spec_image_path() =~= "imgs/"@ + card_spec_view(card).image_path); assert(card.spec_image_path().take(11) =~= "imgs/cards/"@); assert(card.spec_image_path().skip(card.spec_image_path().len() - 4) =~= ".jpg"@); },
                HeroAbilityType::QiBear => { reveal_strlit("imgs/cards/heros/fighter/chi_bear.jpg"); reveal_strlit("cards/heros/fighter/chi_bear.jpg"); assert(card.spec_image_path() =~= "imgs/"@ + card_spec_view(card).image_path); assert(card.spec_image_path().take(11) =~= "imgs/cards/"@); assert(card.spec_image_path().skip(card.spec_image_path().len() - 4) =~= ".jpg"@); },
                HeroAbilityType::PanChucks => { reveal_strlit("imgs/cards/heros/fighter/pan_chucks.jpg"); reveal_strlit("cards/heros/fighter/pan_chucks.jpg"); assert(card.spec_image_path() =~= "imgs/"@ + card_spec_view(card).image_path); assert(card.spec_image_path().take(11) =~= "imgs/cards/"@); assert(card.spec_image_path().skip(card.spec_image_path().len() - 4) =~= ".jpg"@); },
                HeroAbilityType::HeavyBear => { reveal_strlit("imgs/cards/heros/fighter/heavy_bear.jpg"); reveal_strlit("cards/heros/fighter/heavy_bear.jpg"); assert(card.spec_image_path() =~= "imgs/"@ + card_spec_view(card).image_path); assert(card.spec_image_path().take(11) =~= "imgs/cards/"@); assert(card.spec_image_path().skip(card.spec_image_path().len() - 4) =~= ".jpg"@); },
                HeroAbilityType::BadAxe => { reveal_strlit("imgs/cards/heros/fighter/bad_axe.jpg"); reveal_strlit("cards/heros/fighter/bad_axe.jpg"); assert(card.spec_image_path() =~= "imgs/"@ + card_spec_view(card).image_path); assert(card.spec_image_path().take(11) =~= "imgs/cards/"@); assert(card.spec_image_path().skip(card.spec_image_path().len() - 4) =~= ".jpg"@); },
                HeroAbilityType::ToughTeddy => { reveal_strlit("imgs/cards/heros/fighter/tough_teddy.jpg"); reveal_strlit("cards/heros/fighter/tough_teddy.jpg"); assert(card.spec_image_path() =~= "imgs/"@ + card_spec_view(card).image_path); assert(card.spec_image_path().take(11) =~= "imgs/cards/"@); assert(card.spec_image_path().skip(card.spec_image_path().len() - 4) =~= ".jpg"@); },
                HeroAbilityType::BearClaw => { reveal_strlit("imgs/cards/heros/fighter/bear_claw.jpg"); reveal_strlit("cards/heros/fighter/bear_claw.jpg"); assert(card.spec_image_path() =~= "imgs/"@ + card_spec_view(card).image_path); assert(card.spec_image_path().take(11) =~= "imgs/cards/"@); assert(card.spec_image_path().skip(card.spec_image_path().len() - 4) =~= ".jpg"@); },
                HeroAbilityType::FuryKnuckle => { reveal_strlit("imgs/cards/heros/fighter/fury_knuckle.jpg"); reveal_strlit("cards/heros/fighter/fury_knuckle.jpg"); assert(card.spec_image_path() =~= "imgs/"@ + card_spec_view(card).image_path); assert(card.spec_image_path().take(11) =~= "imgs/cards/"@); assert(card.spec_image_path().skip(card.spec_image_path().len() - 4) =~= ".jpg"@); },
                HeroAbilityType::BearyWise => { reveal_strlit("imgs/cards/heros/fighter/beary_wise.jpg"); reveal_strlit("cards/heros/fighter/beary_wise.jpg"); assert(card.spec_image_path() =~= "imgs/"@ + card_spec_view(card).image_path); assert(card.spec_image_path().take(11) =~= "imgs/cards/"@); assert(card.spec_image_path().skip(card.spec_image_path().len() - 4) =~= ".jpg"@); },
                HeroAbilityType::Hook => { reveal_strlit("imgs/cards/heros/ranger/hook.jpg"); reveal_strlit("cards/heros/ranger/hook.jpg"); assert(card.spec_image_path() =~= "imgs/"@ + card_spec_view(card).image_path); assert(card.spec_image_path().take(11) =~= "imgs/cards/"@); assert(card.spec_image_path().skip(card.spec_image_path().len() - 4) =~= ".jpg"@); },
                HeroAbilityType::Wildshot => { reveal_strlit("imgs/cards/heros/ranger/wildshot.jpg"); reveal_strlit("cards/heros/ranger/wildshot.jpg"); assert(card.spec_image_path() =~= "imgs/"@ + card_spec_view(card).image_path); assert(card.spec_image_path().take(11) =~= "imgs/cards/"@); assert(card.spec_image_path().skip(card.spec_image_path().len() - 4) =~= ".jpg"@); },
                HeroAbilityType::SeriousGrey => { reveal_strlit("imgs/cards/heros/ranger/serious_grey.jpg"); reveal_strlit("cards/heros/ranger/serious_grey.jpg"); assert(card.spec_image_path() =~= "imgs/"@ + card_spec_view(card).image_path); assert(card.spec_image_path().take(11) =~= "imgs/cards/"@); assert(card.spec_image_path().skip(card.spec_image_path().len() - 4) =~= ".jpg"@); },
                HeroAbilityType::WilyRed => { reveal_strlit("imgs/cards/heros/ranger/wily_red.jpg"); reveal_strlit("cards/heros/ranger/wily_red.jpg"); assert(card.spec_image_path() =~= "imgs/"@ + card_spec_view(card).image_path); assert(card.spec_image_path().take(11) =~= "imgs/cards/"@); assert(card.spec_image_path().skip(card.spec_image_path().len() - 4) =~= ".jpg"@); },
                HeroAbilityType::QuickDraw => { reveal_strlit("imgs/cards/heros/ranger/quick_draw.jpg"); reveal_strlit("cards/heros/ranger/quick_draw.jpg"); assert(card.spec_image_path() =~= "imgs/"@ + card_spec_view(card).image_path); assert(card.spec_image_path().take(11) =~= "imgs/cards/"@); assert(card.spec_image_path().skip(card.spec_image_path().len() - 4) =~= ".jpg"@); },
                HeroAbilityType::LookieRookie => { reveal_strlit("imgs/cards/heros/ranger/lookie_rookie.jpg"); reveal_strlit("cards/heros/ranger/lookie_rookie.jpg"); assert(card.spec_image_path() =~= "imgs/"@ + card_spec_view(card).image_path); assert(card.spec_image_path().take(11) =~= "imgs/cards/"@); assert(card.spec_image_path().skip(card.spec_image_path().len() - 4) =~= ".jpg"@); },
                HeroAbilityType::Bullseye => { reveal_strlit("imgs/cards/heros/ranger/bullseye.jpg"); reveal_strlit("cards/heros/ranger/bullseye.jpg"); assert(card.spec_image_path() =~= "imgs/"@ + card_spec_view(card).image_path); assert(card.spec_image_path().take(11) =~= "imgs/cards/"@); assert(card.spec_image_path().skip(card.spec_image_path().len() - 4) =~= ".jpg"@); },
                HeroAbilityType::SharpFox => { reveal_strlit("imgs/cards/heros/ranger/sharp_fox.jpg"); reveal_strlit("cards/heros/ranger/sharp_fox.jpg"); assert(card.spec_image_path() =~= "imgs/"@ + card_spec_view(card).image_path); assert(card.spec_image_path().take(11) =~= "imgs/cards/"@); assert(card.spec_image_path().skip(card.spec_image_path().len() - 4) =~= ".jpg"@); },
                HeroAbilityType::FuzzyCheeks => { reveal_strlit("imgs/cards/heros/bards/fuzzy_cheeks.jpg"); reveal_strlit("cards/heros/bards/fuzzy_cheeks.jpg"); assert(card.spec_image_path() =~= "imgs/"@ + card_spec_view(card).image_path); assert(card.spec_image_path().take(11) =~= "imgs/cards/"@); assert(card.spec_image_path().skip(card.spec_image_path().len() - 4) =~= ".jpg"@); },
                HeroAbilityType::Peanut => { reveal_strlit("imgs/cards/heros/bards/peanut.jpg"); reveal_strlit("cards/heros/bards/peanut.jpg"); assert(card.spec_image_path() =~= "imgs/"@ + card_spec_view(card).image_path); assert(card.spec_image_path().take(11) =~= "imgs/cards/"@); assert(card.spec_image_path().skip(card.spec_image_path().len() - 4) =~= ".jpg"@); },
                HeroAbilityType::NappingNibbles => { reveal_strlit("imgs/cards/heros/bards/napping_nibbles.jpg"); reveal_strlit("cards/heros/bards/napping_nibbles.jpg"); assert(card.spec_image_path() =~= "imgs/"@ + card_spec_view(card).image_path); assert(card.spec_image_path().take(11) =~= "imgs/cards/"@); assert(card.spec_image_path().skip(card.spec_image_path().len() - 4) =~= ".jpg"@); },
                HeroAbilityType::TipsyTootie => { reveal_strlit("imgs/cards/heros/bards/tipsy_tootie.jpg"); reveal_strlit("cards/heros/bards/tipsy_tootie.jpg"); assert(card.spec_image_path() =~= "imgs/"@ + card_spec_view(card).image_path); assert(card.spec_image_path().take(11) =~= "imgs/cards/"@); assert(card.spec_image_path().skip(card.spec_image_path().len() - 4) =~= ".jpg"@); },
                HeroAbilityType::MellowDee => { reveal_strlit("imgs/cards/heros/bards/mellow_dee.jpg"); reveal_strlit("cards/heros/bards/mellow_dee.jpg"); assert(card.spec_image_path() =~= "imgs/"@ + card_spec_view(card).image_path); assert(card.spec_image_path().take(11) =~= "imgs/cards/"@); assert(card.spec_image_path().skip(card.spec_image_path().len() - 4) =~= ".jpg"@); },
                HeroAbilityType::LuckBucky => { reveal_strlit("imgs/cards/heros/bards/lucky_bucky.jpg"); reveal_strlit("cards/heros/bards/lucky_bucky.jpg"); assert(card.spec_image_path() =~= "imgs/"@ + card_spec_view(card).image_path); assert(card.spec_image_path().take(11) =~= "imgs/cards/"@); assert(card.spec_image_path().skip(card.spec_image_path().len() - 4) =~= ".jpg"@); },
                HeroAbilityType::DodgyDealer => { reveal_strlit("imgs/cards/heros/bards/dodgy_dealer.jpg"); reveal_strlit("cards/heros/bards/dodgy_dealer.jpg"); assert(card.spec_image_path() =~= "imgs/"@ + card_spec_view(card).image_path); assert(card.spec_image_path().take(11) =~= "imgs/cards/"@); assert(card.spec_image_path().skip(card.spec_image_path().len() - 4) =~= ".jpg"@); },
                HeroAbilityType::GreedyCheeks => { reveal_strlit("imgs/cards/heros/bards/greedy_cheeks.jpg"); reveal_strlit("cards/heros/bards/greedy_cheeks.jpg"); assert(card.spec_image_path() =~= "imgs/"@ + card_spec_view(card).image_path); assert(card.spec_image_path().take(11) =~= "imgs/cards/"@); assert(card.spec_image_path().skip(card.spec_image_path().len() - 4) =~= ".jpg"@); },
                HeroAbilityType::Fluffy => { reveal_strlit("imgs/cards/heros/wizard/fluffy.jpg"); reveal_strlit("cards/heros/wizard/fluffy.jpg"); assert(card.spec_image_path() =~= "imgs/"@ + card_spec_view(card).image_path); assert(card.spec_image_path().take(11) =~= "imgs/cards/"@); assert(card.spec_image_path().skip(card.spec_image_path().len() - 4) =~= ".jpg"@); },
                HeroAbilityType::Wiggles => { reveal_strlit("imgs/cards/heros/wizard/wiggles.jpg"); reveal_strlit("cards/heros/wizard/wiggles.jpg"); assert(card.spec_image_path() =~= "imgs/"@ + card_spec_view(card).image_path); assert(card.spec_image_path().take(11) =~= "imgs/cards/"@); assert(card.spec_image_path().skip(card.spec_image_path().len() - 4) =~= ".jpg"@); },
                HeroAbilityType::Spooky => { reveal_strlit("imgs/cards/heros/wizard/spooky.jpg"); reveal_strlit("cards/heros/wizard/spooky.jpg"); assert(card.spec_image_path() =~= "imgs/"@ + card_spec_view(card).image_path); assert(card.spec_image_path().take(11) =~= "imgs/cards/"@); assert(card.spec_image_path().skip(card.spec_image_path().len() - 4) =~= ".jpg"@); },
                HeroAbilityType::Snowball => { reveal_strlit("imgs/cards/heros/wizard/snowball.jpg"); reveal_strlit("cards/heros/wizard/snowball.jpg"); assert(card.spec_image_path() =~= "imgs/"@ + card_spec_view(card).image_path); assert(card.spec_image_path().take(11) =~= "imgs/cards/"@); assert(card.spec_image_path().skip(card.spec_image_path().len() - 4) =~= ".jpg"@); },
                HeroAbilityType::Buttons => { reveal_strlit("imgs/cards/heros/wizard/buttons.jpg"); reveal_strlit("cards/heros/wizard/buttons.jpg"); assert(card.spec_image_path() =~= "imgs/"@ + card_spec_view(card).image_path); assert(card.spec_image_path().take(11) =~= "imgs/cards/"@); assert(card.spec_image_path().skip(card.spec_image_path().len() - 4) =~= ".jpg"@); },
                HeroAbilityType::BunBun => { reveal_strlit("imgs/cards/heros/wizard/bun_bun.jpg"); reveal_strlit("cards/heros/wizard/bun_bun.jpg"); assert(card.spec_image_path() =~= "imgs/"@ + card_spec_view(card).image_path); assert(card.spec_image_path().take(11) =~= "imgs/cards/"@); assert(card.spec_image_path().skip(card.spec_image_path().len() - 4) =~= ".jpg"@); },
                HeroAbilityType::Hopper => { reveal_strlit("imgs/cards/heros/wizard/hopper.jpg"); reveal_strlit("cards/heros/wizard/hopper.jpg"); assert(card.spec_image_path() =~= "imgs/"@ + card_spec_view(card).image_path); assert(card.spec_image_path().take(11) =~= "imgs/cards/"@); assert(card.spec_image_path().skip(card.spec_image_path().len() - 4) =~= ".jpg"@); },
                HeroAbilityType::Whiskers => { reveal_strlit("imgs/cards/heros/wizard/whiskers.jpg"); reveal_strlit("cards/heros/wizard/whiskers.jpg"); assert(card.spec_image_path() =~= "imgs/"@ + card_spec_view(card).image_path); assert(card.spec_image_path().take(11) =~= "imgs/cards/"@); assert(card.spec_image_path().skip(card.spec_image_path().len() - 4) =~= ".jpg"@); },
            },
            SlayCardSpec::PartyLeader(leader_type) => match leader_type {
                HeroType::Bard => { reveal_strlit("imgs/cards/party_leaders/charismatic_song.jpg"); reveal_strlit("cards/party_leaders/charismatic_song.jpg"); assert(card.spec_image_path() =~= "imgs/"@ + card_spec_view(card).image_path); assert(card.spec_image_path().take(11) =~= "imgs/cards/"@); assert(card.spec_image_path().skip(card.spec_image_path().len() - 4) =~= ".jpg"@); },
                HeroType::Wizard => { reveal_strlit("imgs/cards/party_leaders/cloaked_sage.jpg"); reveal_strlit("cards/party_leaders/cloaked_sage.jpg"); assert(card.spec_image_path() =~= "imgs/"@ + card_spec_view(card).image_path); assert(card.spec_image_path().take(11) =~= "imgs/cards/"@); assert(card.spec_image_path().skip(card.spec_image_path().len() - 4) =~= ".jpg"@); },
                HeroType::Fighter => { reveal_strlit("imgs/cards/party_leaders/fist_of_reason.jpg"); reveal_strlit("cards/party_leaders/fist_of_reason.jpg"); assert(card.spec_image_path() =~= "imgs/"@ + card_spec_view(card).image_path); assert(card.spec_image_path().take(11) =~= "imgs/cards/"@); assert(card.spec_image_path().skip(card.spec_image_path().len() - 4) =~= ".jpg"@); },
                HeroType::Gaurdian => { reveal_strlit("imgs/cards/party_leaders/protecting_horn.jpg"); reveal_strlit("cards/party_leaders/protecting_horn.jpg"); assert(card.spec_image_path() =~= "imgs/"@ + card_spec_view(card).image_path); assert(card.spec_image_path().take(11) =~= "imgs/cards/"@); assert(card.spec_image_path().skip(card.spec_image_path().len() - 4) =~= ".jpg"@); },
                HeroType::Ranger => { reveal_strlit("imgs/cards/party_leaders/divine_arrow.jpg"); reveal_strlit("cards/party_leaders/divine_arrow.jpg"); assert(card.spec_image_path() =~= "imgs/"@ + card_spec_view(card).image_path); assert(card.spec_image_path().take(11) =~= "imgs/cards/"@); assert(card.spec_image_path().skip(card.spec_image_path().len() - 4) =~= ".jpg"@); },
                HeroType::Thief => { reveal_strlit("imgs/cards/party_leaders/shadow_claw.jpg"); reveal_strlit("cards/party_leaders/shadow_claw.jpg"); assert(card.spec_image_path() =~= "imgs/"@ + card_spec_view(card).image_path); assert(card.spec_image_path().take(11) =~= "imgs/cards/"@); assert(card.spec_image_path().skip(card.spec_image_path().len() - 4) =~= ".jpg"@); },
            },
            SlayCardSpec::MonsterCard(monster) => match monster {
                Monster::AnuranCauldron => { reveal_strlit("imgs/cards/monsters/anuran_cauldron.jpg"); reveal_strlit("cards/monsters/anuran_cauldron.jpg"); assert(card.spec_image_path() =~= "imgs/"@ + card_spec_view(card).image_path); assert(card.spec_image_path().take(11) =~= "imgs/cards/"@); assert(card.spec_image_path().skip(card.spec_image_path().len() - 4) =~= ".jpg"@); },
                Monster::TitanWyvern => { reveal_strlit("imgs/cards/monsters/titan_wyvern.jpg"); reveal_strlit("cards/monsters/titan_wyvern.jpg"); assert(card.spec_image_path() =~= "imgs/"@ + card_spec_view(card).image_path); assert(card.spec_image_path().take(11) =~= "imgs/cards/"@); assert(card.spec_image_path().skip(card.spec_image_path().len() - 4) =~= ".jpg"@); },
                Monster::DarkDragonKing => { reveal_strlit("imgs/cards/monsters/dark_dragon_king.jpg"); reveal_strlit("cards/monsters/dark_dragon_king.jpg"); assert(card.spec_image_path() =~= "imgs/"@ + card_spec_view(card).image_path); assert(card.spec_image_path().take(11) =~= "imgs/cards/"@); assert(card.spec_image_path().skip(card.spec_image_path().len() - 4) =~= ".jpg"@); },
                Monster::AbyssQueen => { reveal_strlit("imgs/cards/monsters/abyss_queen.jpg"); reveal_strlit("cards/monsters/abyss_queen.jpg"); assert(card.spec_image_path() =~= "imgs/"@ + card_spec_view(card).image_path); assert(card.spec_image_path().take(11) =~= "imgs/cards/"@); assert(card.spec_image_path().skip(card.spec_image_path().len() - 4) =~= ".jpg"@); },
                Monster::RexMajor => { reveal_strlit("imgs/cards/monsters/rex_major.jpg"); reveal_strlit("cards/monsters/rex_major.jpg"); assert(card.spec_image_path() =~= "imgs/"@ + card_spec_view(card).image_path); assert(card.spec_image_path().take(11) =~= "imgs/cards/"@); assert(card.spec_image_path().skip(card.spec_image_path().len() - 4) =~= ".jpg"@); },
                Monster::CorruptedSabretooth => { reveal_strlit("imgs/cards/monsters/corrupted_sabretooth.jpg"); reveal_strlit("cards/monsters/corrupted_sabretooth.jpg"); assert(card.spec_image_path() =~= "imgs/"@ + card_spec_view(card).image_path); assert(card.spec_image_path().take(11) =~= "imgs/cards/"@); assert(card.spec_image_path().skip(card.spec_image_path().len() - 4) =~= ".jpg"@); },
                Monster::CrownedSerpent => { reveal_strlit("imgs/cards/monsters/crowned_serpent.jpg"); reveal_strlit("cards/monsters/crowned_serpent.jpg"); assert(card.spec_image_path() =~= "imgs/"@ + card_spec_view(card).image_path); assert(card.spec_image_path().take(11) =~= "imgs/cards/"@); assert(card.spec_image_path().skip(card.spec_image_path().len() - 4) =~= ".jpg"@); },
                Monster::WarwornOwlbear => { reveal_strlit("imgs/cards/monsters/warworn_owlbear.jpg"); reveal_strlit("cards/monsters/warworn_owlbear.jpg"); assert(card.spec_image_path() =~= "imgs/"@ + card_spec_view(card).image_path); assert(card.spec_image_path().take(11) =~= "imgs/cards/"@); assert(card.spec_image_path().skip(card.spec_image_path().len() - 4) =~= ".jpg"@); },
                Monster::Dracos => { reveal_strlit("imgs/cards/monsters/dracos.jpg"); reveal_strlit("cards/monsters/dracos.jpg"); assert(card.spec_image_path() =~= "imgs/"@ + card_spec_view(card).image_path); assert(card.spec_image_path().take(11) =~= "imgs/cards/"@); assert(card.spec_image_path().skip(card.spec_image_path().len() - 4) =~= ".jpg"@); },
                Monster::Malammoth => { reveal_strlit("imgs/cards/monsters/malamammoth.jpg"); reveal_strlit("cards/monsters/malamammoth.jpg"); assert(card.spec_image_path() =~= "imgs/"@ + card_spec_view(card).image_path); assert(card.spec_image_path().take(11) =~= "imgs/cards/"@); assert(card.spec_image_path().skip(card.spec_image_path().len() - 4) =~= ".jpg"@); },
                Monster::Bloodwing => { reveal_strlit("imgs/cards/monsters/bloodwing.jpg"); reveal_strlit("cards/monsters/bloodwing.jpg"); assert(card.spec_image_path() =~= "imgs/"@ + card_spec_view(card).image_path); assert(card.spec_image_path().take(11) =~= "imgs/cards/"@); assert(card.spec_image_path().skip(card.spec_image_path().len() - 4) =~= ".jpg"@); },
                Monster::ArcticAries => { reveal_strlit("imgs/cards/monsters/arctic_aries.jpg"); reveal_strlit("cards/monsters/arctic_aries.jpg"); assert(card.spec_image_path() =~= "imgs/"@ + card_spec_view(card).image_path); assert(card.spec_image_path().take(11) =~= "imgs/cards/"@); assert(card.spec_image_path().skip(card.spec_image_path().len() - 4) =~= ".jpg"@); },
                Monster::MegaSlime => { reveal_strlit("imgs/cards/monsters/mega_slime.jpg"); reveal_strlit("cards/monsters/mega_slime.jpg"); assert(card.spec_image_path() =~= "imgs/"@ + card_spec_view(card).image_path); assert(card.spec_image_path().take(11) =~= "imgs/cards/"@); assert(card.spec_image_path().skip(card.spec_image_path().len() - 4) =~= ".jpg"@); },
                Monster::Orthus => { reveal_strlit("imgs/cards/monsters/orthus.jpg"); reveal_strlit("cards/monsters/orthus.jpg"); assert(card.spec_image_path() =~= "imgs/"@ + card_spec_view(card).image_path); assert(card.spec_image_path().take(11) =~= "imgs/cards/"@); assert(card.spec_image_path().skip(card.spec_image_path().len() - 4) =~= ".jpg"@); },
                Monster::Terratuga => { reveal_strlit("imgs/cards/monsters/terratuga.jpg"); reveal_strlit("cards/monsters/terratuga.jpg"); assert(card.spec_image_path() =~= "imgs/"@ + card_spec_view(card).image_path); assert(card.spec_image_path().take(11) =~= "imgs/cards/"@); assert(card.spec_image_path().skip(card.spec_image_path().len() - 4) =~= ".jpg"@); },
            },
            SlayCardSpec::MagicCard(spell) => match spell {
                MagicSpell::EnganglingTrap => { reveal_strlit("imgs/cards/magic/entangling_trap.jpg"); reveal_strlit("cards/magic/entangling_trap.jpg"); assert(card.spec_image_path() =~= "imgs/"@ + card_spec_view(card).image_path); assert(card.spec_image_path().take(11) =~= "imgs/cards/"@); assert(card.spec_image_path().skip(card.spec_image_path().len() - 4) =~= ".jpg"@); },
                MagicSpell::CriticalBoost => { reveal_strlit("imgs/cards/magic/critical_boost.jpg"); reveal_strlit("cards/magic/critical_boost.jpg"); assert(card.spec_image_path() =~= "imgs/"@ + card_spec_view(card).image_path); assert(card.spec_image_path().take(11) =~= "imgs/cards/"@); assert(card.spec_image_path().skip(card.spec_image_path().len() - 4) =~= ".jpg"@); },
                MagicSpell::DestructiveSpell => { reveal_strlit("imgs/cards/magic/descructive_spell.jpg"); reveal_strlit("cards/magic/descructive_spell.jpg"); assert(card.spec_image_path() =~= "imgs/"@ + card_spec_view(card).image_path); assert(card.spec_image_path().take(11) =~= "imgs/cards/"@); assert(card.spec_image_path().skip(card.spec_image_path().len() - 4) =~= ".jpg"@); },
                MagicSpell::WindsOfChange => { reveal_strlit("imgs/cards/magic/winds_of_change.jpg"); reveal_strlit("cards/magic/winds_of_change.jpg"); assert(card.spec_image_path() =~= "imgs/"@ + card_spec_view(card).image_path); assert(card.spec_image_path().take(11) =~= "imgs/cards/"@); assert(card.spec_image_path().skip(card.spec_image_path().len() - 4) =~= ".jpg"@); },
                MagicSpell::EnchangedSpell => { reveal_strlit("imgs/cards/magic/enchanged_spell.jpg"); reveal_strlit("cards/magic/enchanged_spell.jpg"); assert(card.spec_image_path() =~= "imgs/"@ + card_spec_view(card).image_path); assert(card.spec_image_path().take(11) =~= "imgs/cards/"@); assert(card.spec_image_path().skip(card.spec_image_path().len() - 4) =~= ".jpg"@); },
                MagicSpell::ForcedExchange => { reveal_strlit("imgs/cards/magic/forced_exchange.jpg"); reveal_strlit("cards/magic/forced_exchange.jpg"); assert(card.spec_image_path() =~= "imgs/"@ + card_spec_view(card).image_path); assert(card.spec_image_path().take(11) =~= "imgs/cards/"@); assert(card.spec_image_path().skip(card.spec_image_path().len() - 4) =~= ".jpg"@); },
                MagicSpell::ForcefulWinds => { reveal_strlit("imgs/cards/magic/forceful_winds.jpg"); reveal_strlit("cards/magic/forceful_winds.jpg"); assert(card.spec_image_path() =~= "imgs/"@ + card_spec_view(card).image_path); assert(card.spec_image_path().take(11) =~= "imgs/cards/"@); assert(card.spec_image_path().skip(card.spec_image_path().len() - 4) =~= ".jpg"@); },
                MagicSpell::CallToTheFallen => { reveal_strlit("imgs/cards/magic/call_to_the_fallen.jpg"); reveal_strlit("cards/magic/call_to_the_fallen.jpg"); assert(card.spec_image_path() =~= "imgs/"@ + card_spec_view(card).image_path); assert(card.spec_image_path().take(11) =~= "imgs/cards/"@); assert(card.spec_image_path().skip(card.spec_image_path().len() - 4) =~= ".jpg"@); },
            },
            SlayCardSpec::ModifierCard(modifier_kind) => match modifier_kind {
                ModifierKinds::Plus4 => { reveal_strlit("imgs/cards/modifier/4.jpg"); reveal_strlit("cards/modifier/4.jpg"); assert(card.spec_image_path() =~= "imgs/"@ + card_spec_view(card).image_path); assert(card.spec_image_path().take(11) =~= "imgs/cards/"@); assert(card.spec_image_path().skip(card.spec_image_path().len() - 4) =~= ".jpg"@); },
                ModifierKinds::Plus3Minus1 => { reveal_strlit("imgs/cards/modifier/3.jpg"); reveal_strlit("cards/modifier/3.jpg"); assert(card.spec_image_path() =~= "imgs/"@ + card_spec_view(card).image_path); assert(card.spec_image_path().take(11) =~= "imgs/cards/"@); assert(card.spec_image_path().skip(card.spec_image_path().len() - 4) =~= ".jpg"@); },
                ModifierKinds::Plus2Minus2 => { reveal_strlit("imgs/cards/modifier/2.jpg"); reveal_strlit("cards/modifier/2.jpg"); assert(card.spec_image_path() =~= "imgs/"@ + card_spec_view(card).image_path); assert(card.spec_image_path().take(11) =~= "imgs/cards/"@); assert(card.spec_image_path().skip(card.spec_image_path().len() - 4) =~= ".jpg"@); },
                ModifierKinds::Plus1Minus3 => { reveal_strlit("imgs/cards/modifier/1.jpg"); reveal_strlit("cards/modifier/1.jpg"); assert(card.spec_image_path() =~= "imgs/"@ + card_spec_view(card).image_path); assert(card.spec_image_path().take(11) =~= "imgs/cards/"@); assert(card.spec_image_path().skip(card.spec_image_path().len() - 4) =~= ".jpg"@); },
                ModifierKinds::Minus4 => { reveal_strlit("imgs/cards/modifier/0.jpg"); reveal_strlit("cards/modifier/0.jpg"); assert(card.spec_image_path() =~= "imgs/"@ + card_spec_view(card).image_path); assert(card.spec_image_path().take(11) =~= "imgs/cards/"@); assert(card.spec_image_path().skip(card.spec_image_path().len() - 4) =~= ".jpg"@); },
            },
            SlayCardSpec::Item(item_card) => match item_card {
                AnotherItemType::MaskCard(hero_type) => match hero_type {
                    HeroType::Bard => { reveal_strlit("imgs/cards/items/bard_mask.jpg"); reveal_strlit("cards/items/bard_mask.jpg"); assert(card.spec_image_path() =~= "imgs/"@ + card_spec_view(card).image_path); assert(card.spec_image_path().take(11) =~= "imgs/cards/"@); assert(card.spec_image_path().skip(card.spec_image_path().len() - 4) =~= ".jpg"@); },
                    HeroType::Wizard => { reveal_strlit("imgs/cards/items/wizard_mask.jpg"); reveal_strlit("cards/items/wizard_mask.jpg"); assert(card.spec_image_path() =~= "imgs/"@ + card_spec_view(card).image_path); assert(card.spec_image_path().take(11) =~= "imgs/cards/"@); assert(card.spec_image_path().skip(card.spec_image_path().len() - 4) =~= ".jpg"@); },
                    HeroType::Fighter => { reveal_strlit("imgs/cards/items/fighter_mask.jpg"); reveal_strlit("cards/items/fighter_mask.jpg"); assert(card.spec_image_path() =~= "imgs/"@ + card_spec_view(card).image_path); assert(card.spec_image_path().take(11) =~= "imgs/cards/"@); assert(card.spec_image_path().skip(card.spec_image_path().len() - 4) =~= ".jpg"@); },
                    HeroType::Gaurdian => { reveal_strlit("imgs/cards/items/guardian_mask.jpg"); reveal_strlit("cards/items/guardian_mask.jpg"); assert(card.spec_image_path() =~= "imgs/"@ + card_spec_view(card).image_path); assert(card.spec_image_path().take(11) =~= "imgs/cards/"@); assert(card.spec_image_path().skip(card.spec_image_path().len() - 4) =~= ".jpg"@); },
                    HeroType::Ranger => { reveal_strlit("imgs/cards/items/ranger_mask.jpg"); reveal_strlit("cards/items/ranger_mask.jpg"); assert(card.spec_image_path() =~= "imgs/"@ + card_spec_view(card).image_path); assert(card.spec_image_path().take(11) =~= "imgs/cards/"@); assert(card.spec_image_path().skip(card.spec_image_path().len() - 4) =~= ".jpg"@); },
                    HeroType::Thief => { reveal_strlit("imgs/cards/items/thief_mask.jpg"); reveal_strlit("cards/items/thief_mask.jpg"); assert(card.spec_image_path() =~= "imgs/"@ + card_spec_view(card).image_path); assert(card.spec_image_path().take(11) =~= "imgs/cards/"@); assert(card.spec_image_path().skip(card.spec_image_path().len() - 4) =~= ".jpg"@); },
                },
                AnotherItemType::NotMask(item) => match item {
                    Item::DecoyDoll => { reveal_strlit("imgs/cards/items/decoy_doll.jpg"); reveal_strlit("cards/items/decoy_doll.jpg"); assert(card.spec_image_path() =~= "imgs/"@ + card_spec_view(card).image_path); assert(card.spec_image_path().take(11) =~= "imgs/cards/"@); assert(card.spec_image_path().skip(card.spec_image_path().len() - 4) =~= ".jpg"@); },
                    Item::ReallyBigRing => { reveal_strlit("imgs/cards/items/really_big_ring.jpg"); reveal_strlit("cards/items/really_big_ring.jpg"); assert(card.spec_image_path() =~= "imgs/"@ + card_spec_view(card).image_path); assert(card.spec_image_path().take(11) =~= "imgs/cards/"@); assert(card.spec_image_path().skip(card.spec_image_path().len() - 4) =~= ".jpg"@); },
                    Item::ParticularlyRustyCoin => { reveal_strlit("imgs/cards/items/particularly_rusty_coin.jpg"); reveal_strlit("cards/items/particularly_rusty_coin.jpg"); assert(card.spec_image_path() =~= "imgs/"@ + card_spec_view(card).image_path); assert(card.spec_image_path().take(11) =~= "imgs/cards/"@); assert(card.spec_image_path().skip(card.spec_image_path().len() - 4) =~= ".jpg"@); },
                    Item::SealingKey => { reveal_strlit("imgs/cards/cursed_items/sealing_key.jpg"); reveal_strlit("cards/cursed_items/sealing_key.jpg"); assert(card.spec_image_path() =~= "imgs/"@ + card_spec_view(card).image_path); assert(card.spec_image_path().take(11) =~= "imgs/cards/"@); assert(card.spec_image_path().skip(card.spec_image_path().len() - 4) =~= ".jpg"@); },
                    Item::SuspiciouslyShinyCoin => { reveal_strlit("imgs/cards/cursed_items/suspiciously_shiny_coin.jpg"); reveal_strlit("cards/cursed_items/suspiciously_shiny_coin.jpg"); assert(card.spec_image_path() =~= "imgs/"@ + card_spec_view(card).image_path); assert(card.spec_image_path().take(11) =~= "imgs/cards/"@); assert(card.spec_image_path().skip(card.spec_image_path().len() - 4) =~= ".jpg"@); },
                    Item::CurseOfTheSnakesEyes => { reveal_strlit("imgs/cards/cursed_items/curse_of_the_snakes_eyes.jpg"); reveal_strlit("cards/cursed_items/curse_of_the_snakes_eyes.jpg"); assert(card.spec_image_path() =~= "imgs/"@ + card_spec_view(card).image_path); assert(card.spec_image_path().take(11) =~= "imgs/cards/"@); assert(card.spec_image_path().skip(card.spec_image_path().len() - 4) =~= ".jpg"@); },
                },
            },
            SlayCardSpec::Challenge => { reveal_strlit("imgs/cards/challenge/challenge.jpg"); reveal_strlit("cards/challenge/challenge.jpg"); assert(card.spec_image_path() =~= "imgs/"@ + card_spec_view(card).image_path); assert(card.spec_image_path().take(11) =~= "imgs/cards/"@); assert(card.spec_image_path().skip(card.spec_image_path().len() - 4) =~= ".jpg"@); },
        }
}

} // verus!
