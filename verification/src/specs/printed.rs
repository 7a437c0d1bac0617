use vstd::prelude::*;

use crate::specs::cards::card_type::SlayCardSpec;
use crate::specs::hero::HeroAbilityType;
use crate::specs::initialization::card_spec_view;
use crate::specs::magic::{spell_tasks, MagicSpell};
use crate::specs::modifier::ModifierKinds;
use crate::tasks::{PlayerTask, SearchDiscardFilters};

verus! {

/// Whether the text starts with the given words.
pub open spec fn begins_with(text: Seq<char>, prefix: Seq<char>) -> bool {
    prefix.len() <= text.len() && text.take(prefix.len() as int) == prefix
}

/// Whether the text ends with the given words.
pub open spec fn ends_with(text: Seq<char>, suffix: Seq<char>) -> bool {
    suffix.len() <= text.len() && text.skip(text.len() - suffix.len()) == suffix
}

/// How many cards the tasks draw before doing anything else: each `Draw(n)` draws `n`
/// cards, each draw into a recorded value one card.
pub open spec fn drawn_at_start(tasks: Seq<PlayerTask>) -> nat
    decreases tasks.len(),
{
    if tasks.len() == 0 {
        0
    } else {
        match tasks[0] {
            PlayerTask::Draw(n) => n as nat + drawn_at_start(tasks.drop_first()),
            PlayerTask::DrawIntoParam(_) => 1 + drawn_at_start(tasks.drop_first()),
            _ => 0,
        }
    }
}

/// A hero's ability does what its card says: the card that says "Do nothing." is the only
/// one whose ability gives no task, and an ability whose card starts with "DRAW a card",
/// "DRAW 2 cards" or "DRAW 3 cards" starts by drawing that many cards, and one whose card
/// says to search the discard pile for a kind of card searches it for that kind.
pub proof fn lemma_hero_tasks_follow_card_text(ability: HeroAbilityType)
    ensures
        (card_spec_view(SlayCardSpec::HeroCard(ability)).description == "Do nothing."@) <==> ability.spec_tasks().len() == 0,
        begins_with(card_spec_view(SlayCardSpec::HeroCard(ability)).description, "DRAW a card"@) ==> drawn_at_start(ability.spec_tasks()) == 1,
        begins_with(card_spec_view(SlayCardSpec::HeroCard(ability)).description, "DRAW 2 cards"@) ==> drawn_at_start(ability.spec_tasks()) == 2,
        begins_with(card_spec_view(SlayCardSpec::HeroCard(ability)).description, "DRAW 3 cards"@) ==> drawn_at_start(ability.spec_tasks()) == 3,
        begins_with(card_spec_view(SlayCardSpec::HeroCard(ability)).description, "Search the discard pile for a Hero card"@)
            ==> ability.spec_tasks() == seq![PlayerTask::SearchDiscard(SearchDiscardFilters::IsHero)],
        begins_with(card_spec_view(SlayCardSpec::HeroCard(ability)).description, "Search the discard pile for an Item card"@)
            ==> ability.spec_tasks() == seq![PlayerTask::SearchDiscard(SearchDiscardFilters::IsItem)],
        begins_with(card_spec_view(SlayCardSpec::HeroCard(ability)).description, "Search the discard pile for a Magic card"@)
            ==> ability.spec_tasks() == seq![PlayerTask::SearchDiscard(SearchDiscardFilters::IsMagic)],
        begins_with(card_spec_view(SlayCardSpec::HeroCard(ability)).description, "Search the discard pile for a Modifier card"@)
            ==> ability.spec_tasks() == seq![PlayerTask::SearchDiscard(SearchDiscardFilters::IsModifier)],
{
    reveal_strlit("Do nothing.");
    reveal_strlit("DRAW a card");
    reveal_strlit("DRAW 2 cards");
    reveal_strlit("DRAW 3 cards");
    reveal_strlit("Search the discard pile for a Hero card");
    reveal_strlit("Search the discard pile for an Item card");
    reveal_strlit("Search the discard pile for a Magic card");
    reveal_strlit("Search the discard pile for a Modifier card");
    reveal_with_fuel(drawn_at_start, 4);
    match ability {
        HeroAbilityType::PlunderingPuma => {
            reveal_strlit("Pull 2 cards from another player's hand. That player may DRAW a card.");
            let d = card_spec_view(SlayCardSpec::HeroCard(ability)).description;
            assert(d == "Pull 2 cards from another player's hand. That player may DRAW a card."@);
            assert(d.take(11)[0] == 'P');
            assert(d.take(12)[0] == 'P');
            assert(d.take(12)[0] == 'P');
            assert(d.take(39)[0] == 'P');
            assert(d.take(40)[0] == 'P');
            assert(d.take(40)[0] == 'P');
            assert(d.take(43)[0] == 'P');
        },
        HeroAbilityType::SlipperyPaws => {
            reveal_strlit("Pull 2 cards from another player's hand, then DISCARD one of those cards.");
            let d = card_spec_view(SlayCardSpec::HeroCard(ability)).description;
            assert(d == "Pull 2 cards from another player's hand, then DISCARD one of those cards."@);
            assert(d.take(11)[0] == 'P');
            assert(d.take(12)[0] == 'P');
            assert(d.take(12)[0] == 'P');
            assert(d.take(39)[0] == 'P');
            assert(d.take(40)[0] == 'P');
            assert(d.take(40)[0] == 'P');
            assert(d.take(43)[0] == 'P');
        },
        HeroAbilityType::SmoothMimimeow => {
            reveal_strlit("Pull a card from the hand of each other player with a Thief in their Party.");
            let d = card_spec_view(SlayCardSpec::HeroCard(ability)).description;
            assert(d == "Pull a card from the hand of each other player with a Thief in their Party."@);
            assert(d.take(11)[0] == 'P');
            assert(d.take(12)[0] == 'P');
            assert(d.take(12)[0] == 'P');
            assert(d.take(39)[0] == 'P');
            assert(d.take(40)[0] == 'P');
            assert(d.take(40)[0] == 'P');
            assert(d.take(43)[0] == 'P');
        },
        HeroAbilityType::Meowzio => {
            reveal_strlit("Choose a player. STEAL a Hero card from that player's Party and pull a card from that player's hand.");
            let d = card_spec_view(SlayCardSpec::HeroCard(ability)).description;
            assert(d == "Choose a player. STEAL a Hero card from that player's Party and pull a card from that player's hand."@);
            assert(d.take(11)[0] == 'C');
            assert(d.take(12)[0] == 'C');
            assert(d.take(12)[0] == 'C');
            assert(d.take(39)[0] == 'C');
            assert(d.take(40)[0] == 'C');
            assert(d.take(40)[0] == 'C');
            assert(d.take(43)[0] == 'C');
        },
        HeroAbilityType::Shurikitty => {
            reveal_strlit("DESTROY a Hero card. If that Hero card had an item card equipped to it, add that Item card to your hand instead of moving it to the discard pile.");
            let d = card_spec_view(SlayCardSpec::HeroCard(ability)).description;
            assert(d == "DESTROY a Hero card. If that Hero card had an item card equipped to it, add that Item card to your hand instead of moving it to the discard pile."@);
            assert(d.take(11)[1] == 'E');
            assert(d.take(12)[1] == 'E');
            assert(d.take(12)[1] == 'E');
            assert(d.take(39)[0] == 'D');
            assert(d.take(40)[0] == 'D');
            assert(d.take(40)[0] == 'D');
            assert(d.take(43)[0] == 'D');
        },
        HeroAbilityType::KitNapper => {
            reveal_strlit("Steal a Hero card.");
            let d = card_spec_view(SlayCardSpec::HeroCard(ability)).description;
            assert(d == "Steal a Hero card."@);
            assert(d.take(11)[0] == 'S');
            assert(d.take(12)[0] == 'S');
            assert(d.take(12)[0] == 'S');
        },
        HeroAbilityType::SilentShadow => {
            reveal_strlit("Look at another player's hand. Choose a card and add it to your hand.");
            let d = card_spec_view(SlayCardSpec::HeroCard(ability)).description;
            assert(d == "Look at another player's hand. Choose a card and add it to your hand."@);
            assert(d.take(11)[0] == 'L');
            assert(d.take(12)[0] == 'L');
            assert(d.take(12)[0] == 'L');
            assert(d.take(39)[0] == 'L');
            assert(d.take(40)[0] == 'L');
            assert(d.take(40)[0] == 'L');
            assert(d.take(43)[0] == 'L');
        },
        HeroAbilityType::SlyPickings => {
            reveal_strlit("Pull a card from another player's hand. If that card is an Item card, you may play it immediately.");
            let d = card_spec_view(SlayCardSpec::HeroCard(ability)).description;
            assert(d == "Pull a card from another player's hand. If that card is an Item card, you may play it immediately."@);
            assert(d.take(11)[0] == 'P');
            assert(d.take(12)[0] == 'P');
            assert(d.take(12)[0] == 'P');
            assert(d.take(39)[0] == 'P');
            assert(d.take(40)[0] == 'P');
            assert(d.take(40)[0] == 'P');
            assert(d.take(43)[0] == 'P');
        },
        HeroAbilityType::HolyCurselifter => {
            reveal_strlit("Return a Cursed Item card equipped to a Hero card in your Party to your hand.");
            let d = card_spec_view(SlayCardSpec::HeroCard(ability)).description;
            assert(d == "Return a Cursed Item card equipped to a Hero card in your Party to your hand."@);
            assert(d.take(11)[0] == 'R');
            assert(d.take(12)[0] == 'R');
            assert(d.take(12)[0] == 'R');
            assert(d.take(39)[0] == 'R');
            assert(d.take(40)[0] == 'R');
            assert(d.take(40)[0] == 'R');
            assert(d.take(43)[0] == 'R');
        },
        HeroAbilityType::IronResolve => {
            reveal_strlit("Cards you play cannot be challenged for the rest of your turn.");
            let d = card_spec_view(SlayCardSpec::HeroCard(ability)).description;
            assert(d == "Cards you play cannot be challenged for the rest of your turn."@);
            assert(d.take(11)[0] == 'C');
            assert(d.take(12)[0] == 'C');
            assert(d.take(12)[0] == 'C');
            assert(d.take(39)[0] == 'C');
            assert(d.take(40)[0] == 'C');
            assert(d.take(40)[0] == 'C');
            assert(d.take(43)[0] == 'C');
        },
        HeroAbilityType::CalmingVoice => {
            reveal_strlit("Hero cards in your Party cannot be stolen until your next turn.");
            let d = card_spec_view(SlayCardSpec::HeroCard(ability)).description;
            assert(d == "Hero cards in your Party cannot be stolen until your next turn."@);
            assert(d.take(11)[0] == 'H');
            assert(d.take(12)[0] == 'H');
            assert(d.take(12)[0] == 'H');
            assert(d.take(39)[0] == 'H');
            assert(d.take(40)[0] == 'H');
            assert(d.take(40)[0] == 'H');
            assert(d.take(43)[0] == 'H');
        },
        HeroAbilityType::VibrantGlow => {
            reveal_strlit("+5 to all of your rolls until the end of your turn.");
            let d = card_spec_view(SlayCardSpec::HeroCard(ability)).description;
            assert(d == "+5 to all of your rolls until the end of your turn."@);
            assert(d.take(11)[0] == '+');
            assert(d.take(12)[0] == '+');
            assert(d.take(12)[0] == '+');
            assert(d.take(39)[0] == '+');
            assert(d.take(40)[0] == '+');
            assert(d.take(40)[0] == '+');
            assert(d.take(43)[0] == '+');
        },
        HeroAbilityType::MightyBlade => {
            reveal_strlit("Hero cards in your Party cannot be destroyed until your next turn.");
            let d = card_spec_view(SlayCardSpec::HeroCard(ability)).description;
            assert(d == "Hero cards in your Party cannot be destroyed until your next turn."@);
            assert(d.take(11)[0] == 'H');
            assert(d.take(12)[0] == 'H');
            assert(d.take(12)[0] == 'H');
            assert(d.take(39)[0] == 'H');
            assert(d.take(40)[0] == 'H');
            assert(d.take(40)[0] == 'H');
            assert(d.take(43)[0] == 'H');
        },
        HeroAbilityType::RadiantHorn => {
            reveal_strlit("Search the discard pile for a Modifier card and add it to your hand.");
            let d = card_spec_view(SlayCardSpec::HeroCard(ability)).description;
            assert(d == "Search the discard pile for a Modifier card and add it to your hand."@);
            assert(d.take(11)[0] == 'S');
            assert(d.take(12)[0] == 'S');
            assert(d.take(12)[0] == 'S');
            assert(d.take(39)[30] == 'M');
            assert(d.take(40)[29] == ' ');
            assert(d.take(40)[31] == 'o');
            assert(d.take(43) =~= "Search the discard pile for a Modifier card"@);
        },
        HeroAbilityType::GuidingLight => {
            reveal_strlit("Search the discard pile for a Hero card and add it to your hand.");
            let d = card_spec_view(SlayCardSpec::HeroCard(ability)).description;
            assert(d == "Search the discard pile for a Hero card and add it to your hand."@);
            assert(d.take(11)[0] == 'S');
            assert(d.take(12)[0] == 'S');
            assert(d.take(12)[0] == 'S');
            assert(d.take(39) =~= "Search the discard pile for a Hero card"@);
            assert(d.take(40)[29] == ' ');
            assert(d.take(40)[30] == 'H');
            assert(d.take(43)[30] == 'H');
        },
        HeroAbilityType::WiseShield => {
            reveal_strlit("+3 to all of your rolls until the end of your turn.");
            let d = card_spec_view(SlayCardSpec::HeroCard(ability)).description;
            assert(d == "+3 to all of your rolls until the end of your turn."@);
            assert(d.take(11)[0] == '+');
            assert(d.take(12)[0] == '+');
            assert(d.take(12)[0] == '+');
            assert(d.take(39)[0] == '+');
            assert(d.take(40)[0] == '+');
            assert(d.take(40)[0] == '+');
            assert(d.take(43)[0] == '+');
        },
        HeroAbilityType::QiBear => {
            reveal_strlit("DISCARD up to 3 cards. For each card discarded, DESTROY a Hero card.");
            let d = card_spec_view(SlayCardSpec::HeroCard(ability)).description;
            assert(d == "DISCARD up to 3 cards. For each card discarded, DESTROY a Hero card."@);
            assert(d.take(11)[1] == 'I');
            assert(d.take(12)[1] == 'I');
            assert(d.take(12)[1] == 'I');
            assert(d.take(39)[0] == 'D');
            assert(d.take(40)[0] == 'D');
            assert(d.take(40)[0] == 'D');
            assert(d.take(43)[0] == 'D');
        },
        HeroAbilityType::PanChucks => {
            reveal_strlit("DRAW 2 cards. If at least one of those cards is a Challenge card, you may reveal it, then DESTROY a Hero card.");
            let d = card_spec_view(SlayCardSpec::HeroCard(ability)).description;
            assert(d == "DRAW 2 cards. If at least one of those cards is a Challenge card, you may reveal it, then DESTROY a Hero card."@);
            assert(d.take(11)[5] == '2');
            assert(d.take(12) =~= "DRAW 2 cards"@);
            assert(d.take(12)[5] == '2');
            assert(d.take(39)[0] == 'D');
            assert(d.take(40)[0] == 'D');
            assert(d.take(40)[0] == 'D');
            assert(d.take(43)[0] == 'D');
        },
        HeroAbilityType::HeavyBear => {
            reveal_strlit("Choose a player. That player must DISCARD 2 cards.");
            let d = card_spec_view(SlayCardSpec::HeroCard(ability)).description;
            assert(d == "Choose a player. That player must DISCARD 2 cards."@);
            assert(d.take(11)[0] == 'C');
            assert(d.take(12)[0] == 'C');
            assert(d.take(12)[0] == 'C');
            assert(d.take(39)[0] == 'C');
            assert(d.take(40)[0] == 'C');
            assert(d.take(40)[0] == 'C');
            assert(d.take(43)[0] == 'C');
        },
        HeroAbilityType::BadAxe => {
            reveal_strlit("DESTROY a Hero card.");
            let d = card_spec_view(SlayCardSpec::HeroCard(ability)).description;
            assert(d == "DESTROY a Hero card."@);
            assert(d.take(11)[1] == 'E');
            assert(d.take(12)[1] == 'E');
            assert(d.take(12)[1] == 'E');
        },
        HeroAbilityType::ToughTeddy => {
            reveal_strlit("Each other player with a Fighter in their Party must DISCARD a card.");
            let d = card_spec_view(SlayCardSpec::HeroCard(ability)).description;
            assert(d == "Each other player with a Fighter in their Party must DISCARD a card."@);
            assert(d.take(11)[0] == 'E');
            assert(d.take(12)[0] == 'E');
            assert(d.take(12)[0] == 'E');
            assert(d.take(39)[0] == 'E');
            assert(d.take(40)[0] == 'E');
            assert(d.take(40)[0] == 'E');
            assert(d.take(43)[0] == 'E');
        },
        HeroAbilityType::BearClaw => {
            reveal_strlit("Pull a card from another player's hand. If it is a Hero card, pull a second card from that player's hand.");
            let d = card_spec_view(SlayCardSpec::HeroCard(ability)).description;
            assert(d == "Pull a card from another player's hand. If it is a Hero card, pull a second card from that player's hand."@);
            assert(d.take(11)[0] == 'P');
            assert(d.take(12)[0] == 'P');
            assert(d.take(12)[0] == 'P');
            assert(d.take(39)[0] == 'P');
            assert(d.take(40)[0] == 'P');
            assert(d.take(40)[0] == 'P');
            assert(d.take(43)[0] == 'P');
        },
        HeroAbilityType::FuryKnuckle => {
            reveal_strlit("Pull a card from another player's hand. If it is a Challenge card, pull a second card from that player's hand.");
            let d = card_spec_view(SlayCardSpec::HeroCard(ability)).description;
            assert(d == "Pull a card from another player's hand. If it is a Challenge card, pull a second card from that player's hand."@);
            assert(d.take(11)[0] == 'P');
            assert(d.take(12)[0] == 'P');
            assert(d.take(12)[0] == 'P');
            assert(d.take(39)[0] == 'P');
            assert(d.take(40)[0] == 'P');
            assert(d.take(40)[0] == 'P');
            assert(d.take(43)[0] == 'P');
        },
        HeroAbilityType::BearyWise => {
            reveal_strlit("Each other player must DISCARD a card. Choose one of the discarded cards and add it to your hand.");
            let d = card_spec_view(SlayCardSpec::HeroCard(ability)).description;
            assert(d == "Each other player must DISCARD a card. Choose one of the discarded cards and add it to your hand."@);
            assert(d.take(11)[0] == 'E');
            assert(d.take(12)[0] == 'E');
            assert(d.take(12)[0] == 'E');
            assert(d.take(39)[0] == 'E');
            assert(d.take(40)[0] == 'E');
            assert(d.take(40)[0] == 'E');
            assert(d.take(43)[0] == 'E');
        },
        HeroAbilityType::Hook => {
            reveal_strlit("Play an Item card from your hand immediately and DRAW a card.");
            let d = card_spec_view(SlayCardSpec::HeroCard(ability)).description;
            assert(d == "Play an Item card from your hand immediately and DRAW a card."@);
            assert(d.take(11)[0] == 'P');
            assert(d.take(12)[0] == 'P');
            assert(d.take(12)[0] == 'P');
            assert(d.take(39)[0] == 'P');
            assert(d.take(40)[0] == 'P');
            assert(d.take(40)[0] == 'P');
            assert(d.take(43)[0] == 'P');
        },
        HeroAbilityType::Wildshot => {
            reveal_strlit("DRAW 3 cards and DISCARD a card.");
            let d = card_spec_view(SlayCardSpec::HeroCard(ability)).description;
            assert(d == "DRAW 3 cards and DISCARD a card."@);
            assert(d.take(11)[5] == '3');
            assert(d.take(12)[5] == '3');
            assert(d.take(12) =~= "DRAW 3 cards"@);
        },
        HeroAbilityType::SeriousGrey => {
            reveal_strlit("DESTROY a Hero card and DRAW a card.");
            let d = card_spec_view(SlayCardSpec::HeroCard(ability)).description;
            assert(d == "DESTROY a Hero card and DRAW a card."@);
            assert(d.take(11)[1] == 'E');
            assert(d.take(12)[1] == 'E');
            assert(d.take(12)[1] == 'E');
        },
        HeroAbilityType::WilyRed => {
            reveal_strlit("DRAW cards until you have 7 cards in your hand.");
            let d = card_spec_view(SlayCardSpec::HeroCard(ability)).description;
            assert(d == "DRAW cards until you have 7 cards in your hand."@);
            assert(d.take(11)[5] == 'c');
            assert(d.take(12)[5] == 'c');
            assert(d.take(12)[5] == 'c');
            assert(d.take(39)[0] == 'D');
            assert(d.take(40)[0] == 'D');
            assert(d.take(40)[0] == 'D');
            assert(d.take(43)[0] == 'D');
        },
        HeroAbilityType::QuickDraw => {
            reveal_strlit("DRAW 2 cards. If at least one of those cards is an item card, you may play one of them immediately.");
            let d = card_spec_view(SlayCardSpec::HeroCard(ability)).description;
            assert(d == "DRAW 2 cards. If at least one of those cards is an item card, you may play one of them immediately."@);
            assert(d.take(11)[5] == '2');
            assert(d.take(12) =~= "DRAW 2 cards"@);
            assert(d.take(12)[5] == '2');
            assert(d.take(39)[0] == 'D');
            assert(d.take(40)[0] == 'D');
            assert(d.take(40)[0] == 'D');
            assert(d.take(43)[0] == 'D');
        },
        HeroAbilityType::LookieRookie => {
            reveal_strlit("Search the discard pile for an Item card and add it to your hand.");
            let d = card_spec_view(SlayCardSpec::HeroCard(ability)).description;
            assert(d == "Search the discard pile for an Item card and add it to your hand."@);
            assert(d.take(11)[0] == 'S');
            assert(d.take(12)[0] == 'S');
            assert(d.take(12)[0] == 'S');
            assert(d.take(39)[29] == 'n');
            assert(d.take(40) =~= "Search the discard pile for an Item card"@);
            assert(d.take(40)[29] == 'n');
            assert(d.take(43)[29] == 'n');
        },
        HeroAbilityType::Bullseye => {
            reveal_strlit("Look at the top 3 cards of the deck. Add one to your hand, then return the other two to the top of the deck in any order.");
            let d = card_spec_view(SlayCardSpec::HeroCard(ability)).description;
            assert(d == "Look at the top 3 cards of the deck. Add one to your hand, then return the other two to the top of the deck in any order."@);
            assert(d.take(11)[0] == 'L');
            assert(d.take(12)[0] == 'L');
            assert(d.take(12)[0] == 'L');
            assert(d.take(39)[0] == 'L');
            assert(d.take(40)[0] == 'L');
            assert(d.take(40)[0] == 'L');
            assert(d.take(43)[0] == 'L');
        },
        HeroAbilityType::SharpFox => {
            reveal_strlit("Look at another player's hand.");
            let d = card_spec_view(SlayCardSpec::HeroCard(ability)).description;
            assert(d == "Look at another player's hand."@);
            assert(d.take(11)[0] == 'L');
            assert(d.take(12)[0] == 'L');
            assert(d.take(12)[0] == 'L');
        },
        HeroAbilityType::FuzzyCheeks => {
            reveal_strlit("DRAW a card and play a Hero card from you hand immediately.");
            let d = card_spec_view(SlayCardSpec::HeroCard(ability)).description;
            assert(d == "DRAW a card and play a Hero card from you hand immediately."@);
            assert(d.take(11) =~= "DRAW a card"@);
            assert(d.take(12)[5] == 'a');
            assert(d.take(12)[5] == 'a');
            assert(d.take(39)[0] == 'D');
            assert(d.take(40)[0] == 'D');
            assert(d.take(40)[0] == 'D');
            assert(d.take(43)[0] == 'D');
        },
        HeroAbilityType::Peanut => {
            reveal_strlit("DRAW 2 cards.");
            let d = card_spec_view(SlayCardSpec::HeroCard(ability)).description;
            assert(d == "DRAW 2 cards."@);
            assert(d.take(11)[5] == '2');
            assert(d.take(12) =~= "DRAW 2 cards"@);
            assert(d.take(12)[5] == '2');
        },
        HeroAbilityType::NappingNibbles => {
            reveal_strlit("Do nothing.");
            let d = card_spec_view(SlayCardSpec::HeroCard(ability)).description;
            assert(d == "Do nothing."@);
            assert(d.take(11)[1] == 'o');
        },
        HeroAbilityType::TipsyTootie => {
            reveal_strlit("Choose a player. STEAL a Hero card from that player's Party and move this card to that player's Party.");
            let d = card_spec_view(SlayCardSpec::HeroCard(ability)).description;
            assert(d == "Choose a player. STEAL a Hero card from that player's Party and move this card to that player's Party."@);
            assert(d.take(11)[0] == 'C');
            assert(d.take(12)[0] == 'C');
            assert(d.take(12)[0] == 'C');
            assert(d.take(39)[0] == 'C');
            assert(d.take(40)[0] == 'C');
            assert(d.take(40)[0] == 'C');
            assert(d.take(43)[0] == 'C');
        },
        HeroAbilityType::MellowDee => {
            reveal_strlit("DRAW a card. If that card is a Hero card, you may play it immediately.");
            let d = card_spec_view(SlayCardSpec::HeroCard(ability)).description;
            assert(d == "DRAW a card. If that card is a Hero card, you may play it immediately."@);
            assert(d.take(11) =~= "DRAW a card"@);
            assert(d.take(12)[5] == 'a');
            assert(d.take(12)[5] == 'a');
            assert(d.take(39)[0] == 'D');
            assert(d.take(40)[0] == 'D');
            assert(d.take(40)[0] == 'D');
            assert(d.take(43)[0] == 'D');
        },
        HeroAbilityType::LuckBucky => {
            reveal_strlit("Pull a card from another player's hand. If that card is a Hero card, you may play it immediately.");
            let d = card_spec_view(SlayCardSpec::HeroCard(ability)).description;
            assert(d == "Pull a card from another player's hand. If that card is a Hero card, you may play it immediately."@);
            assert(d.take(11)[0] == 'P');
            assert(d.take(12)[0] == 'P');
            assert(d.take(12)[0] == 'P');
            assert(d.take(39)[0] == 'P');
            assert(d.take(40)[0] == 'P');
            assert(d.take(40)[0] == 'P');
            assert(d.take(43)[0] == 'P');
        },
        HeroAbilityType::DodgyDealer => {
            reveal_strlit("Trade hands with another player.");
            let d = card_spec_view(SlayCardSpec::HeroCard(ability)).description;
            assert(d == "Trade hands with another player."@);
            assert(d.take(11)[0] == 'T');
            assert(d.take(12)[0] == 'T');
            assert(d.take(12)[0] == 'T');
        },
        HeroAbilityType::GreedyCheeks => {
            reveal_strlit("Each other player must give you a card from their hand.");
            let d = card_spec_view(SlayCardSpec::HeroCard(ability)).description;
            assert(d == "Each other player must give you a card from their hand."@);
            assert(d.take(11)[0] == 'E');
            assert(d.take(12)[0] == 'E');
            assert(d.take(12)[0] == 'E');
            assert(d.take(39)[0] == 'E');
            assert(d.take(40)[0] == 'E');
            assert(d.take(40)[0] == 'E');
            assert(d.take(43)[0] == 'E');
        },
        HeroAbilityType::Fluffy => {
            reveal_strlit("DESTROY 2 Hero cards.");
            let d = card_spec_view(SlayCardSpec::HeroCard(ability)).description;
            assert(d == "DESTROY 2 Hero cards."@);
            assert(d.take(11)[1] == 'E');
            assert(d.take(12)[1] == 'E');
            assert(d.take(12)[1] == 'E');
        },
        HeroAbilityType::Wiggles => {
            reveal_strlit("STEAL a Hero card and roll to use its effect immediately.");
            let d = card_spec_view(SlayCardSpec::HeroCard(ability)).description;
            assert(d == "STEAL a Hero card and roll to use its effect immediately."@);
            assert(d.take(11)[0] == 'S');
            assert(d.take(12)[0] == 'S');
            assert(d.take(12)[0] == 'S');
            assert(d.take(39)[1] == 'T');
            assert(d.take(40)[1] == 'T');
            assert(d.take(40)[1] == 'T');
            assert(d.take(43)[1] == 'T');
        },
        HeroAbilityType::Spooky => {
            reveal_strlit("Each other player must SACRIFICE a Hero card.");
            let d = card_spec_view(SlayCardSpec::HeroCard(ability)).description;
            assert(d == "Each other player must SACRIFICE a Hero card."@);
            assert(d.take(11)[0] == 'E');
            assert(d.take(12)[0] == 'E');
            assert(d.take(12)[0] == 'E');
            assert(d.take(39)[0] == 'E');
            assert(d.take(40)[0] == 'E');
            assert(d.take(40)[0] == 'E');
            assert(d.take(43)[0] == 'E');
        },
        HeroAbilityType::Snowball => {
            reveal_strlit("DRAW a card. If it is a Magic card, you may play it immediately and DRAW a second card.");
            let d = card_spec_view(SlayCardSpec::HeroCard(ability)).description;
            assert(d == "DRAW a card. If it is a Magic card, you may play it immediately and DRAW a second card."@);
            assert(d.take(11) =~= "DRAW a card"@);
            assert(d.take(12)[5] == 'a');
            assert(d.take(12)[5] == 'a');
            assert(d.take(39)[0] == 'D');
            assert(d.take(40)[0] == 'D');
            assert(d.take(40)[0] == 'D');
            assert(d.take(43)[0] == 'D');
        },
        HeroAbilityType::Buttons => {
            reveal_strlit("Pull a card from another player's hand. If it is a Magic card, you may play it immediately.");
            let d = card_spec_view(SlayCardSpec::HeroCard(ability)).description;
            assert(d == "Pull a card from another player's hand. If it is a Magic card, you may play it immediately."@);
            assert(d.take(11)[0] == 'P');
            assert(d.take(12)[0] == 'P');
            assert(d.take(12)[0] == 'P');
            assert(d.take(39)[0] == 'P');
            assert(d.take(40)[0] == 'P');
            assert(d.take(40)[0] == 'P');
            assert(d.take(43)[0] == 'P');
        },
        HeroAbilityType::BunBun => {
            reveal_strlit("Search the discard pile for a Magic card and add it to your hand.");
            let d = card_spec_view(SlayCardSpec::HeroCard(ability)).description;
            assert(d == "Search the discard pile for a Magic card and add it to your hand."@);
            assert(d.take(11)[0] == 'S');
            assert(d.take(12)[0] == 'S');
            assert(d.take(12)[0] == 'S');
            assert(d.take(39)[30] == 'M');
            assert(d.take(40)[29] == ' ');
            assert(d.take(40) =~= "Search the discard pile for a Magic card"@);
            assert(d.take(43)[31] == 'a');
        },
        HeroAbilityType::Hopper => {
            reveal_strlit("Choose a player. That player must SACRIFICE a Hero card.");
            let d = card_spec_view(SlayCardSpec::HeroCard(ability)).description;
            assert(d == "Choose a player. That player must SACRIFICE a Hero card."@);
            assert(d.take(11)[0] == 'C');
            assert(d.take(12)[0] == 'C');
            assert(d.take(12)[0] == 'C');
            assert(d.take(39)[0] == 'C');
            assert(d.take(40)[0] == 'C');
            assert(d.take(40)[0] == 'C');
            assert(d.take(43)[0] == 'C');
        },
        HeroAbilityType::Whiskers => {
            reveal_strlit("STEAL a Hero card and DESTROY a Hero card.");
            let d = card_spec_view(SlayCardSpec::HeroCard(ability)).description;
            assert(d == "STEAL a Hero card and DESTROY a Hero card."@);
            assert(d.take(11)[0] == 'S');
            assert(d.take(12)[0] == 'S');
            assert(d.take(12)[0] == 'S');
            assert(d.take(39)[1] == 'T');
            assert(d.take(40)[1] == 'T');
            assert(d.take(40)[1] == 'T');
        },
    }
}

/// A spell does what its card says: a card that starts with "DISCARD 2 cards" or "DISCARD a
/// card" starts with that discard, one that starts with "DRAW 3 cards" starts by drawing
/// three cards, and one that ends with "STEAL a Hero card.", "DRAW a card.", "DESTROY a Hero
/// card." or "DISCARD a card." ends with that steal, draw, destruction or discard; one that
/// starts by returning an equipped item starts by returning the equipped items, and one that
/// says to search the discard pile for a kind of card searches it for that kind.
pub proof fn lemma_spell_tasks_follow_card_text(spell: MagicSpell)
    ensures
        begins_with(card_spec_view(SlayCardSpec::MagicCard(spell)).description, "DISCARD 2 cards"@)
            ==> spell_tasks(spell).len() > 0 && spell_tasks(spell)[0] == PlayerTask::Discard(2),
        begins_with(card_spec_view(SlayCardSpec::MagicCard(spell)).description, "DISCARD a card"@)
            ==> spell_tasks(spell).len() > 0 && spell_tasks(spell)[0] == PlayerTask::Discard(1),
        begins_with(card_spec_view(SlayCardSpec::MagicCard(spell)).description, "DRAW 3 cards"@)
            ==> drawn_at_start(spell_tasks(spell)) == 3,
        ends_with(card_spec_view(SlayCardSpec::MagicCard(spell)).description, "STEAL a Hero card."@)
            ==> spell_tasks(spell).len() > 0 && spell_tasks(spell).last() == PlayerTask::Steal,
        ends_with(card_spec_view(SlayCardSpec::MagicCard(spell)).description, "DRAW a card."@)
            ==> spell_tasks(spell).len() > 0 && spell_tasks(spell).last() == PlayerTask::Draw(1),
        ends_with(card_spec_view(SlayCardSpec::MagicCard(spell)).description, "DESTROY a Hero card."@)
            ==> spell_tasks(spell).len() > 0 && spell_tasks(spell).last() == PlayerTask::Destroy,
        ends_with(card_spec_view(SlayCardSpec::MagicCard(spell)).description, "DISCARD a card."@)
            ==> spell_tasks(spell).len() > 0 && spell_tasks(spell).last() == PlayerTask::Discard(1),
        begins_with(card_spec_view(SlayCardSpec::MagicCard(spell)).description, "Return an Item card"@)
            ==> spell_tasks(spell).len() > 0 && spell_tasks(spell)[0] == PlayerTask::ReturnModifiers,
        begins_with(card_spec_view(SlayCardSpec::MagicCard(spell)).description, "Search the discard pile for a Hero card"@)
            ==> spell_tasks(spell) == seq![PlayerTask::SearchDiscard(SearchDiscardFilters::IsHero)],
        begins_with(card_spec_view(SlayCardSpec::MagicCard(spell)).description, "Search the discard pile for an Item card"@)
            ==> spell_tasks(spell) == seq![PlayerTask::SearchDiscard(SearchDiscardFilters::IsItem)],
        begins_with(card_spec_view(SlayCardSpec::MagicCard(spell)).description, "Search the discard pile for a Magic card"@)
            ==> spell_tasks(spell) == seq![PlayerTask::SearchDiscard(SearchDiscardFilters::IsMagic)],
        begins_with(card_spec_view(SlayCardSpec::MagicCard(spell)).description, "Search the discard pile for a Modifier card"@)
            ==> spell_tasks(spell) == seq![PlayerTask::SearchDiscard(SearchDiscardFilters::IsModifier)],
{
    reveal_strlit("DISCARD 2 cards");
    reveal_strlit("DISCARD a card");
    reveal_strlit("DRAW 3 cards");
    reveal_strlit("STEAL a Hero card.");
    reveal_strlit("DRAW a card.");
    reveal_strlit("DESTROY a Hero card.");
    reveal_strlit("DISCARD a card.");
    reveal_strlit("Return an Item card");
    reveal_strlit("Search the discard pile for a Hero card");
    reveal_strlit("Search the discard pile for an Item card");
    reveal_strlit("Search the discard pile for a Magic card");
    reveal_strlit("Search the discard pile for a Modifier card");
    reveal_with_fuel(drawn_at_start, 4);
    match spell {
        MagicSpell::EnganglingTrap => {
            reveal_strlit("DISCARD 2 cards, then STEAL a Hero card.");
            let d = card_spec_view(SlayCardSpec::MagicCard(spell)).description;
            assert(d == "DISCARD 2 cards, then STEAL a Hero card."@);
            assert(d.take(15) =~= "DISCARD 2 cards"@);
            assert(d.take(14)[8] == '2');
            assert(d.take(12)[1] == 'I');
            assert(d.take(19)[0] == 'D');
            assert(d.take(39)[0] == 'D');
            assert(d.take(40)[0] == 'D');
            assert(d.take(40)[0] == 'D');
            assert(d.skip(22) =~= "STEAL a Hero card."@);
            assert(d.skip(28)[0] == 'a');
            assert(d.skip(20)[0] == 'n');
            assert(d.skip(25)[0] == 'A');
        },
        MagicSpell::CriticalBoost => {
            reveal_strlit("DRAW 3 cards and DISCARD a card.");
            let d = card_spec_view(SlayCardSpec::MagicCard(spell)).description;
            assert(d == "DRAW 3 cards and DISCARD a card."@);
            assert(d.take(15)[1] == 'R');
            assert(d.take(14)[1] == 'R');
            assert(d.take(12) =~= "DRAW 3 cards"@);
            assert(d.take(19)[0] == 'D');
            assert(d.skip(14)[0] == 'n');
            assert(d.skip(20)[0] == 'C');
            assert(d.skip(12)[0] == ' ');
            assert(d.skip(17) =~= "DISCARD a card."@);
        },
        MagicSpell::DestructiveSpell => {
            reveal_strlit("DISCARD a card, then DESTROY a Hero card.");
            let d = card_spec_view(SlayCardSpec::MagicCard(spell)).description;
            assert(d == "DISCARD a card, then DESTROY a Hero card."@);
            assert(d.take(15)[8] == 'a');
            assert(d.take(14) =~= "DISCARD a card"@);
            assert(d.take(12)[1] == 'I');
            assert(d.take(19)[0] == 'D');
            assert(d.take(39)[0] == 'D');
            assert(d.take(40)[0] == 'D');
            assert(d.take(40)[0] == 'D');
            assert(d.skip(23)[2] == 'R');
            assert(d.skip(29)[0] == 'a');
            assert(d.skip(21) =~= "DESTROY a Hero card."@);
            assert(d.skip(26)[0] == 'O');
        },
        MagicSpell::WindsOfChange => {
            reveal_strlit("Return an Item card equipped to any player's Hero card to that player's hand, then DRAW a card.");
            let d = card_spec_view(SlayCardSpec::MagicCard(spell)).description;
            assert(d == "Return an Item card equipped to any player's Hero card to that player's hand, then DRAW a card."@);
            assert(d.take(15)[0] == 'R');
            assert(d.take(14)[0] == 'R');
            assert(d.take(12)[0] == 'R');
            assert(d.take(19) =~= "Return an Item card"@);
            assert(d.take(39)[0] == 'R');
            assert(d.take(40)[0] == 'R');
            assert(d.take(40)[0] == 'R');
            assert(d.take(43)[0] == 'R');
            assert(d.skip(77)[0] == ' ');
            assert(d.skip(83) =~= "DRAW a card."@);
            assert(d.skip(75)[0] == 'd');
            assert(d.skip(80)[0] == 'e');
        },
        MagicSpell::EnchangedSpell => {
            reveal_strlit("+2 to all of your rolls until the end of your turn");
            let d = card_spec_view(SlayCardSpec::MagicCard(spell)).description;
            assert(d == "+2 to all of your rolls until the end of your turn"@);
            assert(d.take(15)[0] == '+');
            assert(d.take(14)[0] == '+');
            assert(d.take(12)[0] == '+');
            assert(d.take(19)[0] == '+');
            assert(d.take(39)[0] == '+');
            assert(d.take(40)[0] == '+');
            assert(d.take(40)[0] == '+');
            assert(d.take(43)[0] == '+');
            assert(d.skip(32)[0] == 'e');
            assert(d.skip(38)[0] == 'o');
            assert(d.skip(30)[0] == 't');
            assert(d.skip(35)[0] == 'n');
        },
        MagicSpell::ForcedExchange => {
            reveal_strlit("Choose a player. STEAL a Hero card from that player's Party, then move a Hero card from your Party to that player's Party.");
            let d = card_spec_view(SlayCardSpec::MagicCard(spell)).description;
            assert(d == "Choose a player. STEAL a Hero card from that player's Party, then move a Hero card from your Party to that player's Party."@);
            assert(d.take(15)[0] == 'C');
            assert(d.take(14)[0] == 'C');
            assert(d.take(12)[0] == 'C');
            assert(d.take(19)[0] == 'C');
            assert(d.take(39)[0] == 'C');
            assert(d.take(40)[0] == 'C');
            assert(d.take(40)[0] == 'C');
            assert(d.take(43)[0] == 'C');
            assert(d.skip(104)[0] == 'a');
            assert(d.skip(110)[0] == 'y');
            assert(d.skip(102)[0] == 't');
            assert(d.skip(107)[0] == 'p');
        },
        MagicSpell::ForcefulWinds => {
            reveal_strlit("Return every equipped item card to its respective player's hand");
            let d = card_spec_view(SlayCardSpec::MagicCard(spell)).description;
            assert(d == "Return every equipped item card to its respective player's hand"@);
            assert(d.take(15)[0] == 'R');
            assert(d.take(14)[0] == 'R');
            assert(d.take(12)[0] == 'R');
            assert(d.take(19)[7] == 'e');
            assert(d.take(39)[0] == 'R');
            assert(d.take(40)[0] == 'R');
            assert(d.take(40)[0] == 'R');
            assert(d.take(43)[0] == 'R');
            assert(d.skip(45)[0] == 't');
            assert(d.skip(51)[0] == 'l');
            assert(d.skip(43)[0] == 'e');
            assert(d.skip(48)[0] == 'e');
        },
        MagicSpell::CallToTheFallen => {
            reveal_strlit("Search the discard pile for a Hero card and add it to your hand.");
            let d = card_spec_view(SlayCardSpec::MagicCard(spell)).description;
            assert(d == "Search the discard pile for a Hero card and add it to your hand."@);
            assert(d.take(15)[0] == 'S');
            assert(d.take(14)[0] == 'S');
            assert(d.take(12)[0] == 'S');
            assert(d.take(19)[0] == 'S');
            assert(d.take(39) =~= "Search the discard pile for a Hero card"@);
            assert(d.take(40)[29] == ' ');
            assert(d.take(40)[30] == 'H');
            assert(d.take(43)[30] == 'H');
            assert(d.skip(46)[0] == 'd');
            assert(d.skip(52)[0] == 'o');
            assert(d.skip(44)[0] == 'a');
            assert(d.skip(49)[0] == 't');
        },
    }
}

/// The amounts by which a modifier card lets a player change a roll are those printed on
/// the card.
pub proof fn lemma_modifier_amounts_printed(kind: ModifierKinds)
    ensures
        card_spec_view(SlayCardSpec::ModifierCard(kind)).modifiers == kind.spec_amounts(),
{
    match kind {
        ModifierKinds::Plus4 => {},
        ModifierKinds::Plus3Minus1 => {},
        ModifierKinds::Plus2Minus2 => {},
        ModifierKinds::Plus1Minus3 => {},
        ModifierKinds::Minus4 => {},
    }
}

} // verus!
