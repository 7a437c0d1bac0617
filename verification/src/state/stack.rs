use vstd::prelude::*;

use crate::choices::ChoiceDisplayType;
use crate::ids;
use crate::specification::{unmodified_hero_type, CardSpec, CardType, HeroAbility, HeroType, MonsterSpec};
use crate::specs::cards::SlayCardSpec;
use crate::specs::hero::HeroAbilityType;
use crate::specs::initialization::card_spec_view;
use crate::specs::items::{hero_effect_of, AnotherItemType};
use crate::specs::monster::monster_spec_matches;
use crate::state::game::Game;
use crate::status_effects::effect::HeroStatusEffect;
use crate::status_effects::effect_entry::{EffectOrigin, HeroStatusEffectEntry};
use crate::text::{decimal, decimal_text};

verus! {

/// A card of the game: what it is, and its identifier.
#[derive(Debug, Clone, Copy, PartialEq, Eq, Structural)]
pub struct Card {
    pub id: ids::CardId,
    pub card_type: SlayCardSpec,
}

/// A card as a player sees it.
#[derive(Debug, Clone, Copy, PartialEq, Eq, Structural)]
pub struct CardPerspective {
    pub id: ids::CardId,
    pub spec: SlayCardSpec,
    pub played_this_turn: bool,
}

/// A card with the cards stacked under it: a hero with its items, for instance.
#[derive(Debug, Clone)]
pub struct Stack {
    pub top: Card,
    pub modifiers: Vec<Card>,
}

/// A stack as a player sees it.
#[derive(Debug, PartialEq, Clone)]
pub struct StackPerspective {
    pub top: CardPerspective,
    pub modifiers: Vec<CardPerspective>,
}

/// A card in a summary of the game: its id in brackets, then its label.
pub open spec fn card_summary(card: Card) -> Seq<char> {
    "("@ + decimal(card.id as nat) + ") "@ + card.card_type.spec_label()
}

/// A stack in a summary of the game: its top card and how many cards are under it.
pub open spec fn stack_summary(stack: Stack) -> Seq<char> {
    "["@ + card_summary(stack.top) + " "@ + decimal(stack.modifiers@.len()) + "], "@
}

impl Card {
    /// The card as a summary of the game shows it.
    pub fn summary(&self) -> (r: String)
        ensures
            r@ == card_summary(*self),
    {
        let mut r = String::from_str("(");
        let digits = decimal_text(self.id as u64);
        r.append(digits.as_str());
        r.append(") ");
        r.append(self.label());
        r
    }

    pub open spec fn spec_to_perspective(self, played_this_turn: bool) -> CardPerspective {
        CardPerspective { id: self.id, played_this_turn, spec: self.card_type }
    }

    /// Whether the card is a hero card.
    pub open spec fn spec_is_hero(self) -> bool {
        self.card_type is HeroCard
    }

    /// Whether the card is an item card.
    pub open spec fn spec_is_item(self) -> bool {
        self.card_type is Item
    }

    pub fn get_spec(&self) -> (r: CardSpec)
        ensures
            r@ == card_spec_view(self.card_type),
    {
        self.card_type.get_card_spec_creation()
    }

    pub fn new(id: ids::CardId, card_type: SlayCardSpec) -> (r: Self)
        ensures
            r == (Card { id, card_type }),
    {
        Card { id, card_type }
    }

    pub fn to_perspective(&self, played_this_turn: bool) -> (r: CardPerspective)
        ensures
            r == self.spec_to_perspective(played_this_turn),
    {
        CardPerspective { id: self.id, played_this_turn, spec: self.card_type }
    }

    /// The amounts by which the card can modify a roll.
    pub fn modification_amounts(&self) -> (r: Vec<i32>)
        ensures
            r@ == card_spec_view(self.card_type).modifiers,
    {
        self.get_spec().modifiers
    }

    pub fn label(&self) -> (r: &'static str)
        ensures
            r@ == self.card_type.spec_label(),
    {
        self.card_type.label()
    }

    /// What the card does as a monster, if it is one.
    pub fn monster_spec(&self) -> (r: Option<MonsterSpec>)
        ensures
            r.is_some() == card_spec_view(self.card_type).monster.is_some(),
            r.is_some() ==> monster_spec_matches(r.unwrap(), card_spec_view(self.card_type).monster.unwrap()),
    {
        match self.get_spec().monster {
            Some(monster) => Some(monster.create_spec()),
            None => None,
        }
    }

    pub fn hero_ability(&self) -> (r: Option<HeroAbility>)
        ensures
            r == card_spec_view(self.card_type).hero_ability,
    {
        self.get_spec().hero_ability
    }

    pub fn card_type(&self) -> (r: CardType)
        ensures
            r == card_spec_view(self.card_type).card_type,
    {
        self.get_spec().card_type()
    }

    /// The class of a hero or party leader card, as printed.
    pub fn get_hero_type(&self) -> (r: Option<HeroType>)
        ensures
            r == unmodified_hero_type(card_spec_view(self.card_type).card_type),
    {
        self.get_unmodified_hero_type()
    }

    pub fn as_choice(&self) -> (r: ChoiceDisplayType)
        ensures
            r == ChoiceDisplayType::Card_(self.card_type),
    {
        ChoiceDisplayType::Card_(self.card_type)
    }

    pub fn is_hero(&self) -> (r: bool)
        ensures
            r == self.spec_is_hero(),
    {
        match self.card_type {
            SlayCardSpec::HeroCard(_) => true,
            _ => false,
        }
    }

    pub fn is_modifier(&self) -> (r: bool)
        ensures
            r == (self.card_type is ModifierCard),
    {
        match self.card_type {
            SlayCardSpec::ModifierCard(_) => true,
            _ => false,
        }
    }

    pub fn is_item(&self) -> (r: bool)
        ensures
            r == self.spec_is_item(),
    {
        match self.card_type {
            SlayCardSpec::Item(_) => true,
            _ => false,
        }
    }

    pub fn is_magic(&self) -> (r: bool)
        ensures
            r == (self.card_type is MagicCard),
    {
        match self.card_type {
            SlayCardSpec::MagicCard(_) => true,
            _ => false,
        }
    }

    pub fn is_challenge(&self) -> (r: bool)
        ensures
            r == (card_spec_view(self.card_type).card_type is Challenge),
    {
        self.get_spec().is_challenge()
    }

    pub fn get_unmodified_hero_type(&self) -> (r: Option<HeroType>)
        ensures
            r == unmodified_hero_type(card_spec_view(self.card_type).card_type),
    {
        self.get_spec().get_unmodified_hero_type()
    }
}

/// An item equipped to a hero, and what it does to that hero.
pub struct ActiveHeroItem {
    pub hero: HeroAbilityType,
    pub item_id: ids::CardId,
    pub effect: HeroStatusEffectEntry,
}

/// The class that a hero stack counts as: the hero's own class, unless a mask is equipped,
/// in which case the last mask decides.
pub open spec fn masked_hero_type(hero_type: HeroType, modifiers: Seq<Card>) -> HeroType
    decreases modifiers.len(),
{
    if modifiers.len() == 0 {
        hero_type
    } else {
        match modifiers.last().card_type {
            SlayCardSpec::Item(AnotherItemType::MaskCard(mask)) => mask,
            _ => masked_hero_type(hero_type, modifiers.drop_last()),
        }
    }
}

/// Whether the card is a mask, of whatever class.
pub open spec fn is_mask(card: Card) -> bool {
    card.card_type matches SlayCardSpec::Item(AnotherItemType::MaskCard(_))
}

proof fn lemma_masked_hero_type(hero_type: HeroType, modifiers: Seq<Card>)
    ensures
        forall|k: int, t: HeroType| 0 <= k < modifiers.len()
            && modifiers[k].card_type == SlayCardSpec::Item(AnotherItemType::MaskCard(t))
            && (forall|j: int| k < j < modifiers.len() ==> !is_mask(#[trigger] modifiers[j]))
            ==> masked_hero_type(hero_type, modifiers) == t,
        (forall|j: int| 0 <= j < modifiers.len() ==> !is_mask(#[trigger] modifiers[j])) ==> masked_hero_type(hero_type, modifiers) == hero_type,
    decreases modifiers.len(),
{
    if modifiers.len() > 0 {
        let rest = modifiers.drop_last();
        lemma_masked_hero_type(hero_type, rest);
        let n = modifiers.len() - 1;
        assert forall|k: int, t: HeroType| 0 <= k < modifiers.len()
            && modifiers[k].card_type == SlayCardSpec::Item(AnotherItemType::MaskCard(t))
            && (forall|j: int| k < j < modifiers.len() ==> !is_mask(#[trigger] modifiers[j]))
            implies masked_hero_type(hero_type, modifiers) == t by {
            if k < n {
                assert(!is_mask(modifiers[n]));
                assert(rest[k] == modifiers[k]);
                assert forall|j: int| k < j < rest.len() implies !is_mask(#[trigger] rest[j]) by {
                    assert(rest[j] == modifiers[j]);
                }
            }
        }
        if forall|j: int| 0 <= j < modifiers.len() ==> !is_mask(#[trigger] modifiers[j]) {
            assert(!is_mask(modifiers[n]));
            assert forall|j: int| 0 <= j < rest.len() implies !is_mask(#[trigger] rest[j]) by {
                assert(rest[j] == modifiers[j]);
            }
        }
    }
}

/// A stack with a hero on top counts as the class of the last mask equipped to it, whatever
/// class is printed on the hero; with no mask equipped, it counts as the class printed on
/// the hero's card.
pub proof fn lemma_stack_class(stack: Stack, hero: HeroAbilityType)
    requires
        stack.top.card_type == SlayCardSpec::HeroCard(hero),
    ensures
        forall|k: int, t: HeroType| 0 <= k < stack.modifiers@.len()
            && stack.modifiers@[k].card_type == SlayCardSpec::Item(AnotherItemType::MaskCard(t))
            && (forall|j: int| k < j < stack.modifiers@.len() ==> !is_mask(#[trigger] stack.modifiers@[j]))
            ==> stack.spec_hero_type() == Some(t),
        (forall|j: int| 0 <= j < stack.modifiers@.len() ==> !is_mask(#[trigger] stack.modifiers@[j]))
            ==> stack.spec_hero_type() == unmodified_hero_type(card_spec_view(stack.top.card_type).card_type),
{
    lemma_masked_hero_type(hero.spec_hero_type(), stack.modifiers@);
    crate::specs::initialization::lemma_hero_card_ability(hero);
}

/// The index of the first item in `modifiers` whose effect is `SacrificeMeInstead`, if any.
pub open spec fn first_decoy(modifiers: Seq<Card>) -> Option<int>
    decreases modifiers.len(),
{
    if modifiers.len() == 0 {
        None
    } else {
        match first_decoy(modifiers.drop_last()) {
            Some(i) => Some(i),
            None => match modifiers.last().card_type {
                SlayCardSpec::Item(item) => if hero_effect_of(item) == HeroStatusEffect::SacrificeMeInstead {
                    Some(modifiers.len() - 1)
                } else {
                    None
                },
                _ => None,
            },
        }
    }
}

/// What an item card does to the hero it is equipped to.
pub open spec fn item_entry(card: Card) -> HeroStatusEffectEntry {
    match card.card_type {
        SlayCardSpec::Item(item) => HeroStatusEffectEntry { effect: hero_effect_of(item), origin: EffectOrigin::FromItem },
        _ => HeroStatusEffectEntry { effect: HeroStatusEffect::RemoveAbility, origin: EffectOrigin::FromItem },
    }
}

impl Stack {
    /// The stack as a summary of the game shows it.
    pub fn summary(&self) -> (r: String)
        ensures
            r@ == stack_summary(*self),
    {
        let mut r = String::from_str("[");
        let top = self.top.summary();
        r.append(top.as_str());
        r.append(" ");
        let count = decimal_text(self.modifiers.len() as u64);
        r.append(count.as_str());
        r.append("], ");
        r
    }

    /// Whether every card stacked under the top card is an item.
    pub open spec fn modifiers_are_items(self) -> bool {
        forall|i: int| 0 <= i < self.modifiers@.len() ==> #[trigger] self.modifiers@[i].spec_is_item()
    }

    /// Whether the stack is shaped as the game builds stacks with a hero on top: items under a hero.
    pub open spec fn well_formed(self) -> bool {
        self.top.spec_is_hero() ==> self.modifiers_are_items()
    }

    /// The class the stack counts as, if its top card is a hero.
    pub open spec fn spec_hero_type(self) -> Option<HeroType> {
        match self.top.card_type {
            SlayCardSpec::HeroCard(hero) => Some(masked_hero_type(hero.spec_hero_type(), self.modifiers@)),
            _ => None,
        }
    }

    /// Whether the card with this id is in the stack.
    pub open spec fn spec_contains(self, card_id: ids::CardId) -> bool {
        self.top.id == card_id || exists|i: int| 0 <= i < self.modifiers@.len() && #[trigger] self.modifiers@[i].id == card_id
    }

    /// A stack of one card.
    pub fn new(top: Card) -> (r: Self)
        ensures
            r.top == top,
            r.modifiers@ == Seq::<Card>::empty(),
    {
        Self { top, modifiers: Vec::new() }
    }

    /// A copy of the stack.
    pub fn copy(&self) -> (r: Self)
        ensures
            r.top == self.top,
            r.modifiers@ == self.modifiers@,
    {
        Stack { top: self.top, modifiers: copy_cards(&self.modifiers) }
    }

    /// The items equipped to the hero on top, with what each does.
    pub fn hero_effects(&self) -> (r: Vec<ActiveHeroItem>)
        requires
            self.top.spec_is_hero() || self.modifiers@.len() == 0,
            self.modifiers_are_items(),
        ensures
            r@.len() == self.modifiers@.len(),
            forall|i: int| #![trigger r@[i]] 0 <= i < r@.len() ==> {
                &&& r@[i].item_id == self.modifiers@[i].id
                &&& self.top.card_type == SlayCardSpec::HeroCard(r@[i].hero)
                &&& r@[i].effect == item_entry(self.modifiers@[i])
            },
    {
        let mut r: Vec<ActiveHeroItem> = Vec::new();
        let mut i: usize = 0;
        while i < self.modifiers.len()
            invariant
                i <= self.modifiers@.len(),
                r@.len() == i,
                self.top.spec_is_hero() || self.modifiers@.len() == 0,
                self.modifiers_are_items(),
                forall|j: int| #![trigger r@[j]] 0 <= j < r@.len() ==> {
                    &&& r@[j].item_id == self.modifiers@[j].id
                    &&& self.top.card_type == SlayCardSpec::HeroCard(r@[j].hero)
                    &&& r@[j].effect == item_entry(self.modifiers@[j])
                },
            decreases self.modifiers@.len() - i,
        {
            let item_card = self.modifiers[i];
            assert(self.modifiers@[i as int].spec_is_item());
            let item = match item_card.card_type {
                SlayCardSpec::Item(item) => item,
                _ => { proof { assert(false); } AnotherItemType::NotMask(crate::specs::items::Item::DecoyDoll) },
            };
            let hero = match self.top.card_type {
                SlayCardSpec::HeroCard(hero) => hero,
                _ => { proof { assert(false); } HeroAbilityType::PlunderingPuma },
            };
            let ghost before = r@;
            let effect = item.hero_effect_entry();
            r.push(ActiveHeroItem { hero, item_id: item_card.id, effect });
            proof {
                assert(item_card == self.modifiers@[i as int]);
                assert(effect == item_entry(self.modifiers@[i as int]));
                assert forall|j: int| #![trigger r@[j]] 0 <= j < r@.len() implies {
                    &&& r@[j].item_id == self.modifiers@[j].id
                    &&& self.top.card_type == SlayCardSpec::HeroCard(r@[j].hero)
                    &&& r@[j].effect == item_entry(self.modifiers@[j])
                } by {
                    if j < i {
                        assert(r@[j] == before[j]);
                    }
                }
            }
            i = i + 1;
        }
        r
    }

    pub fn contains(&self, card_id: ids::CardId) -> (r: bool)
        ensures
            r == self.spec_contains(card_id),
    {
        if self.top.id == card_id {
            return true;
        }
        let mut i: usize = 0;
        while i < self.modifiers.len()
            invariant
                i <= self.modifiers@.len(),
                self.top.id != card_id,
                forall|j: int| 0 <= j < i ==> #[trigger] self.modifiers@[j].id != card_id,
            decreases self.modifiers@.len() - i,
        {
            if self.modifiers[i].id == card_id {
                return true;
            }
            i = i + 1;
        }
        false
    }

    /// The class the stack counts as, if its top card is a hero.
    pub fn get_hero_type(&self) -> (r: Option<HeroType>)
        requires
            self.well_formed(),
        ensures
            r == self.spec_hero_type(),
    {
        let hero_card = match self.top.card_type {
            SlayCardSpec::HeroCard(hero_card) => hero_card,
            _ => { return None; },
        };
        let mut return_value = hero_card.hero_type();
        let mut i: usize = 0;
        while i < self.modifiers.len()
            invariant
                i <= self.modifiers@.len(),
                self.modifiers_are_items(),
                return_value == masked_hero_type(hero_card.spec_hero_type(), self.modifiers@.take(i as int)),
            decreases self.modifiers@.len() - i,
        {
            assert(self.modifiers@.take(i + 1).drop_last() =~= self.modifiers@.take(i as int));
            if let SlayCardSpec::Item(AnotherItemType::MaskCard(hero_type)) = self.modifiers[i].card_type {
                return_value = hero_type;
            }
            i = i + 1;
        }
        assert(self.modifiers@.take(i as int) =~= self.modifiers@);
        Some(return_value)
    }

    /// The card to remove when this stack is sacrificed or destroyed: the first equipped
    /// decoy if there is one, the top card otherwise.
    pub fn get_id_to_sacrifice_or_destroy(&self) -> (r: ids::CardId)
        requires
            self.top.spec_is_hero() || self.modifiers@.len() == 0,
            self.modifiers_are_items(),
        ensures
            r == match first_decoy(self.modifiers@) {
                Some(i) => self.modifiers@[i].id,
                None => self.top.id,
            },
    {
        let mut i: usize = 0;
        while i < self.modifiers.len()
            invariant
                i <= self.modifiers@.len(),
                self.modifiers_are_items(),
                first_decoy(self.modifiers@.take(i as int)) is None,
            decreases self.modifiers@.len() - i,
        {
            assert(self.modifiers@.take(i + 1).drop_last() =~= self.modifiers@.take(i as int));
            assert(self.modifiers@[i as int].spec_is_item());
            if let SlayCardSpec::Item(item) = self.modifiers[i].card_type {
                if item.hero_effect() == HeroStatusEffect::SacrificeMeInstead {
                    proof { lemma_first_decoy_prefix(self.modifiers@, i as int); }
                    return self.modifiers[i].id;
                }
            }
            i = i + 1;
        }
        assert(self.modifiers@.take(i as int) =~= self.modifiers@);
        self.top.id
    }

    pub fn to_perspective(&self, game: &Game, player_index: Option<ids::PlayerIndex>) -> (r: StackPerspective)
        requires
            player_index.is_some() ==> player_index.unwrap() < game.players@.len(),
        ensures
            r.top == self.top.spec_to_perspective(game.spec_was_card_played(player_index, self.top.id)),
            r.modifiers@ == self.modifiers@.map_values(|c: Card| c.spec_to_perspective(false)),
    {
        let mut modifiers: Vec<CardPerspective> = Vec::new();
        let mut i: usize = 0;
        while i < self.modifiers.len()
            invariant
                i <= self.modifiers@.len(),
                modifiers@ == self.modifiers@.take(i as int).map_values(|c: Card| c.spec_to_perspective(false)),
            decreases self.modifiers@.len() - i,
        {
            modifiers.push(self.modifiers[i].to_perspective(false));
            i = i + 1;
            assert(modifiers@ =~= self.modifiers@.take(i as int).map_values(|c: Card| c.spec_to_perspective(false)));
        }
        assert(self.modifiers@.take(i as int) =~= self.modifiers@);
        StackPerspective {
            top: self.top.to_perspective(game.was_card_played(player_index, self.top.id)),
            modifiers,
        }
    }
}

/// Once a decoy is found at index `i` of the prefix up to `i + 1`, it stays the first one.
proof fn lemma_first_decoy_prefix(modifiers: Seq<Card>, i: int)
    requires
        0 <= i < modifiers.len(),
        first_decoy(modifiers.take(i)) is None,
        match modifiers[i].card_type {
            SlayCardSpec::Item(item) => hero_effect_of(item) == HeroStatusEffect::SacrificeMeInstead,
            _ => false,
        },
    ensures
        first_decoy(modifiers) == Some(i),
    decreases modifiers.len(),
{
    if i + 1 < modifiers.len() {
        assert(modifiers.drop_last().take(i) =~= modifiers.take(i));
        lemma_first_decoy_prefix(modifiers.drop_last(), i);
    } else {
        assert(modifiers.drop_last() =~= modifiers.take(i));
    }
}

/// A copy of a list of cards.
pub fn copy_cards(cards: &Vec<Card>) -> (r: Vec<Card>)
    ensures
        r@ == cards@,
{
    let mut r: Vec<Card> = Vec::new();
    let mut i: usize = 0;
    while i < cards.len()
        invariant
            i <= cards@.len(),
            r@ == cards@.take(i as int),
        decreases cards@.len() - i,
    {
        r.push(cards[i]);
        i = i + 1;
        assert(r@ =~= cards@.take(i as int));
    }
    assert(cards@.take(i as int) =~= cards@);
    r
}

} // verus!
