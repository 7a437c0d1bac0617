use vstd::prelude::*;

use crate::ids;
use crate::modifiers::{ItemModifier, PlayerModifier};
use crate::showdown::consequences::{Condition, RollConsequence, RollConsequences};
use crate::specs::cards::SlayCardSpec;
use crate::specs::initialization::{card_list, card_spec_view, list_cards};
use crate::specs::magic::MagicSpell;
use crate::specs::monster::Monster;
use crate::state::deck::DeckPath;
use crate::tasks::{MonsterSlainTask, PlayerTask};

pub use crate::specs::hero::HeroAbility;

verus! {

/// After this many rounds, the game is over.
pub const MAX_TURNS: u32 = 1000;

/// The class of a hero.
#[derive(Debug, Clone, Copy, PartialEq, Eq, Hash, Structural)]
pub enum HeroType {
    Bard,
    Wizard,
    Fighter,
    Gaurdian,
    Ranger,
    Thief,
}

/// The editions of the game that cards come from.
#[derive(Debug, Clone, Copy, PartialEq, Eq, Structural)]
pub enum GameVersion {
    Original,
}

impl HeroType {
    /// Every class of this game comes from the original edition.
    pub fn game_version(&self) -> (r: GameVersion)
        ensures
            r == GameVersion::Original,
    {
        GameVersion::Original
    }
}

#[derive(Debug, Clone, Copy, PartialEq, Eq, Hash, Structural)]
pub enum ItemType {
    Cursed,
    Blessed,
    Mask,
}

/// The kind of a card.
#[derive(Debug, Clone, Copy, PartialEq, Eq, Hash, Structural)]
pub enum CardType {
    Hero(HeroType),
    PartyLeader(HeroType),
    Monster,
    Challenge,
    Modifier,
    Item(ItemType),
    Magic,
}

impl CardType {
    pub fn is_hero_card(&self) -> (r: bool)
        ensures
            r == (*self is Hero),
    {
        match self {
            CardType::Hero(_) => true,
            _ => false,
        }
    }

    /// The kinds of items that can be equipped to a hero: blessed and cursed ones.
    pub fn item_types() -> (r: Vec<CardType>)
        ensures
            r@ == seq![CardType::Item(ItemType::Blessed), CardType::Item(ItemType::Cursed)],
    {
        let mut r = Vec::new();
        r.push(CardType::Item(ItemType::Blessed));
        r.push(CardType::Item(ItemType::Cursed));
        r
    }
}

/// What a monster asks of a party before it can be attacked.
#[derive(Debug, Clone, Copy, PartialEq, Eq, Structural)]
pub enum MonsterRequirements {
    /// Any hero.
    Hero,
    /// A hero of this class.
    HeroType(HeroType),
}

impl MonsterRequirements {
    pub open spec fn spec_satisfied_by_party_leader(self, leader_type: HeroType) -> bool {
        self == MonsterRequirements::HeroType(leader_type)
    }

    /// The party leader stands in for a hero of its own class.
    pub fn satisfied_by_party_leader(&self, leader_type: HeroType) -> (r: bool)
        ensures
            r == self.spec_satisfied_by_party_leader(leader_type),
    {
        match self {
            MonsterRequirements::Hero => false,
            MonsterRequirements::HeroType(hero_type) => *hero_type == leader_type,
        }
    }
}

/// What a monster card does: what happens when it is attacked, what it asks of the party
/// that attacks it, and what it gives the player who slays it.
#[derive(Debug, Clone)]
pub struct MonsterSpec {
    pub consequences: RollConsequences,
    pub requirements: Vec<MonsterRequirements>,
    pub modifiers: Vec<PlayerModifier>,
}

impl MonsterSpec {
    /// The consequences of attacking the monster with the given card id: on success, the
    /// monster's own tasks followed by moving the monster into the attacker's slain monsters.
    pub fn get_consequences(&self, card_id: ids::CardId) -> (r: RollConsequences)
        ensures
            r.success.condition == self.consequences.success.condition,
            r.success.tasks@ == self.consequences.success.tasks@.push(
                PlayerTask::MonsterSlain(MonsterSlainTask { card_id }),
            ),
            r.loss.is_some() == self.consequences.loss.is_some(),
            r.loss.is_some() ==> r.loss.unwrap().condition == self.consequences.loss.unwrap().condition
                && r.loss.unwrap().tasks@ == self.consequences.loss.unwrap().tasks@,
    {
        let mut tasks = crate::tasks::copy_tasks(&self.consequences.success.tasks);
        tasks.push(PlayerTask::MonsterSlain(MonsterSlainTask { card_id }));
        RollConsequences {
            success: RollConsequence { condition: self.consequences.success.condition, tasks },
            loss: match &self.consequences.loss {
                Some(loss) => Some(loss.copy()),
                None => None,
            },
        }
    }
}

/// The abstract content of a card specification.
pub struct CardSpecView {
    pub card_type: CardType,
    pub repeat: u32,
    pub label: Seq<char>,
    pub description: Seq<char>,
    pub image_path: Seq<char>,
    pub monster: Option<Monster>,
    pub modifiers: Seq<i32>,
    pub hero_ability: Option<HeroAbility>,
    pub spell: Option<MagicSpell>,
    pub card_modifier: Option<ItemModifier>,
    pub real_spec: SlayCardSpec,
}

/// Everything that is printed on a card, and how many copies of it the game has.
#[derive(Debug, Clone)]
pub struct CardSpec {
    pub card_type: CardType,
    pub repeat: u32,
    pub label: String,
    pub description: String,
    pub image_path: String,
    pub monster: Option<Monster>,
    pub modifiers: Vec<i32>,
    pub hero_ability: Option<HeroAbility>,
    pub spell: Option<MagicSpell>,
    pub card_modifier: Option<ItemModifier>,
    pub real_spec: SlayCardSpec,
}

impl View for CardSpec {
    type V = CardSpecView;

    open spec fn view(&self) -> CardSpecView {
        CardSpecView {
            card_type: self.card_type,
            repeat: self.repeat,
            label: self.label@,
            description: self.description@,
            image_path: self.image_path@,
            monster: self.monster,
            modifiers: self.modifiers@,
            hero_ability: self.hero_ability,
            spell: self.spell,
            card_modifier: self.card_modifier,
            real_spec: self.real_spec,
        }
    }
}

/// The content of a specification before its fields are set.
pub open spec fn default_card_spec_view() -> CardSpecView {
    CardSpecView {
        card_type: CardType::Challenge,
        repeat: 1,
        label: "Please set the name."@,
        description: "Please set the description."@,
        image_path: "Please set the image_path."@,
        monster: None,
        modifiers: Seq::empty(),
        hero_ability: None,
        spell: None,
        card_modifier: None,
        real_spec: SlayCardSpec::Challenge,
    }
}

impl Default for CardSpec {
    fn default() -> (r: Self)
        ensures
            r@ == default_card_spec_view(),
    {
        Self {
            card_type: CardType::Challenge,
            repeat: 1,
            label: "Please set the name.".to_string(),
            description: "Please set the description.".to_string(),
            image_path: "Please set the image_path.".to_string(),
            monster: None,
            modifiers: Vec::new(),
            hero_ability: None,
            spell: None,
            card_modifier: None,
            real_spec: SlayCardSpec::Challenge,
        }
    }
}

/// The deck in which the cards of a kind start the game.
pub open spec fn initial_deck(card_type: CardType) -> DeckPath {
    match card_type {
        CardType::PartyLeader(_) => DeckPath::PartyLeaders,
        CardType::Monster => DeckPath::NextMonsters,
        _ => DeckPath::Draw,
    }
}

/// The class of a hero or party leader card, as printed.
pub open spec fn unmodified_hero_type(card_type: CardType) -> Option<HeroType> {
    match card_type {
        CardType::Hero(hero_type) => Some(hero_type),
        CardType::PartyLeader(hero_type) => Some(hero_type),
        _ => None,
    }
}

impl CardSpec {
    /// Builds a specification from its content.
    pub fn from_parts(
        card_type: CardType,
        repeat: u32,
        label: String,
        description: String,
        image_path: String,
        monster: Option<Monster>,
        modifiers: Vec<i32>,
        hero_ability: Option<HeroAbility>,
        spell: Option<MagicSpell>,
        card_modifier: Option<ItemModifier>,
    ) -> (r: Self)
        ensures
            r@ == (CardSpecView {
                card_type,
                repeat,
                label: label@,
                description: description@,
                image_path: image_path@,
                monster,
                modifiers: modifiers@,
                hero_ability,
                spell,
                card_modifier,
                real_spec: SlayCardSpec::Challenge,
            }),
    {
        CardSpec {
            card_type,
            repeat,
            label,
            description,
            image_path,
            monster,
            modifiers,
            hero_ability,
            spell,
            card_modifier,
            real_spec: SlayCardSpec::Challenge,
        }
    }

    pub fn card_type(&self) -> (r: CardType)
        ensures
            r == self@.card_type,
    {
        self.card_type
    }

    pub fn get_initial_deck(&self) -> (r: DeckPath)
        ensures
            r == initial_deck(self@.card_type),
    {
        match self.card_type {
            CardType::PartyLeader(_) => DeckPath::PartyLeaders,
            CardType::Monster => DeckPath::NextMonsters,
            _ => DeckPath::Draw,
        }
    }

    pub fn get_unmodified_hero_type(&self) -> (r: Option<HeroType>)
        ensures
            r == unmodified_hero_type(self@.card_type),
    {
        match &self.card_type {
            CardType::Hero(hero_type) => Some(*hero_type),
            CardType::PartyLeader(hero_type) => Some(*hero_type),
            _ => None,
        }
    }

    pub fn is_magic(&self) -> (r: bool)
        ensures
            r == (self@.card_type is Magic),
    {
        match &self.card_type {
            CardType::Magic => true,
            _ => false,
        }
    }

    pub fn is_hero(&self) -> (r: bool)
        ensures
            r == (self@.card_type is Hero),
    {
        match &self.card_type {
            CardType::Hero(_) => true,
            _ => false,
        }
    }

    pub fn is_challenge(&self) -> (r: bool)
        ensures
            r == (self@.card_type is Challenge),
    {
        match &self.card_type {
            CardType::Challenge => true,
            _ => false,
        }
    }
}

/// What is printed on every card of the game, in the order of `card_list`.
pub fn get_card_specs() -> (r: Vec<CardSpec>)
    ensures
        r@.len() == card_list().len(),
        forall|i: int| 0 <= i < r@.len() ==> (#[trigger] r@[i])@ == card_spec_view(card_list()[i]),
{
    let cards = list_cards();
    let mut specs: Vec<CardSpec> = Vec::new();
    let mut i: usize = 0;
    while i < cards.len()
        invariant
            i <= cards@.len(),
            cards@ == card_list(),
            specs@.len() == i,
            forall|k: int| 0 <= k < i ==> (#[trigger] specs@[k])@ == card_spec_view(card_list()[k]),
        decreases cards@.len() - i,
    {
        specs.push(cards[i].get_card_spec_creation());
        i = i + 1;
    }
    specs
}

} // verus!
