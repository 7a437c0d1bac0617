use vstd::prelude::*;

use std::collections::VecDeque;

use crate::choices::{filtered_options, OptionFilter, CardPath, ChoicePerspective, ChoicesPerspective, DisplayPath};
use crate::errors::{SlayError, SlayResult};
use crate::ids;
use crate::specs::cards::SlayCardSpec;
use crate::specification::{CardType, HeroType};
use crate::specs::initialization::card_spec_view;
use crate::specs::visibility::{Perspective, Visibility, VisibilitySpec};
use crate::state::game::Game;
use crate::state::player::HeroTypeCounter;
use crate::state::stack::{copy_cards, stack_summary, Card, Stack, StackPerspective};
use crate::text::{decimal, decimal_text, indentation, spaces};

verus! {

/// Which deck a deck is; players' decks carry the player's index.
#[derive(Debug, PartialEq, Eq, Clone, Copy, Hash, Structural)]
pub enum DeckPath {
    Draw,
    Discard,
    PartyLeaders,
    ActiveMonsters,
    NextMonsters,
    Hand(ids::PlayerIndex),
    Party(ids::PlayerIndex),
    SlainMonsters(ids::PlayerIndex),
}

/// "Player 3's hand", for instance.
fn player_deck_label(player_index: usize, noun: &str) -> (r: String)
    ensures
        r@ == "Player "@ + decimal(player_index as nat) + "'s "@ + noun@,
{
    let mut r = String::from_str("Player ");
    let digits = decimal_text(player_index as u64);
    r.append(digits.as_str());
    r.append("'s ");
    r.append(noun);
    r
}

impl DeckPath {
    pub open spec fn spec_player_index(self) -> Option<ids::PlayerIndex> {
        match self {
            DeckPath::Hand(player_index) => Some(player_index),
            DeckPath::Party(player_index) => Some(player_index),
            DeckPath::SlainMonsters(player_index) => Some(player_index),
            _ => None,
        }
    }

    pub open spec fn spec_label(self) -> Seq<char> {
        match self {
            DeckPath::Draw => "Draw pile"@,
            DeckPath::Discard => "Discard pile"@,
            DeckPath::PartyLeaders => "Unused Party leaders"@,
            DeckPath::ActiveMonsters => "Monsters"@,
            DeckPath::NextMonsters => "Next monsters"@,
            DeckPath::Hand(player_index) => "Player "@ + decimal(player_index as nat) + "'s "@ + "hand"@,
            DeckPath::Party(player_index) => "Player "@ + decimal(player_index as nat) + "'s "@ + "party"@,
            DeckPath::SlainMonsters(player_index) => "Player "@ + decimal(player_index as nat) + "'s "@ + "monsters"@,
        }
    }

    pub fn display(&self) -> (r: DisplayPath)
        ensures
            r == DisplayPath::DeckAt(*self),
    {
        DisplayPath::DeckAt(*self)
    }

    pub fn get_player_index(&self) -> (r: Option<ids::PlayerIndex>)
        ensures
            r == self.spec_player_index(),
    {
        match self {
            DeckPath::Draw => None,
            DeckPath::Discard => None,
            DeckPath::PartyLeaders => None,
            DeckPath::ActiveMonsters => None,
            DeckPath::NextMonsters => None,
            DeckPath::Hand(player_index) => Some(*player_index),
            DeckPath::Party(player_index) => Some(*player_index),
            DeckPath::SlainMonsters(player_index) => Some(*player_index),
        }
    }

    pub fn get_label(&self) -> (r: String)
        ensures
            r@ == self.spec_label(),
    {
        match self {
            DeckPath::Draw => "Draw pile".to_string(),
            DeckPath::Discard => "Discard pile".to_string(),
            DeckPath::PartyLeaders => "Unused Party leaders".to_string(),
            DeckPath::ActiveMonsters => "Monsters".to_string(),
            DeckPath::NextMonsters => "Next monsters".to_string(),
            DeckPath::Hand(player_index) => player_deck_label(*player_index, "hand"),
            DeckPath::Party(player_index) => player_deck_label(*player_index, "party"),
            DeckPath::SlainMonsters(player_index) => player_deck_label(*player_index, "monsters"),
        }
    }
}

/// The kinds of decks that every player has.
#[derive(Debug, PartialEq, Eq, Clone, Copy, Structural)]
pub enum PartialDeckPath {
    Hand,
    Party,
    SlainMonsters,
}

impl PartialDeckPath {
    pub fn to_deck_path(&self, player_index: ids::PlayerIndex) -> (r: DeckPath)
        ensures
            r == match *self {
                PartialDeckPath::Hand => DeckPath::Hand(player_index),
                PartialDeckPath::Party => DeckPath::Party(player_index),
                PartialDeckPath::SlainMonsters => DeckPath::SlainMonsters(player_index),
            },
    {
        match self {
            PartialDeckPath::Hand => DeckPath::Hand(player_index),
            PartialDeckPath::Party => DeckPath::Party(player_index),
            PartialDeckPath::SlainMonsters => DeckPath::SlainMonsters(player_index),
        }
    }
}

/// Who may see a deck, and which deck it is.
#[derive(Debug, Clone, Copy, PartialEq, Eq, Structural)]
pub struct DeckSpec {
    pub visibility: VisibilitySpec,
    pub path: DeckPath,
}

/// A pile of stacks, the first of which is dealt first.
#[derive(Debug, Clone)]
pub struct Deck {
    pub stacks: VecDeque<Stack>,
    pub spec: DeckSpec,
}

/// A deck as a player sees it: how many stacks, and the stacks themselves if visible.
#[derive(Debug, PartialEq, Clone)]
pub struct DeckPerspective {
    pub count: usize,
    pub path: DeckPath,
    pub stacks: Option<Vec<StackPerspective>>,
}

impl View for Deck {
    type V = Seq<Stack>;

    open spec fn view(&self) -> Seq<Stack> {
        self.stacks@
    }
}

/// The id of the top card of a stack, where that card is of the given kind.
pub open spec fn top_id_if_kind(card_type: CardType) -> spec_fn(Stack) -> Option<ids::CardId> {
    |s: Stack| if card_spec_view(s.top.card_type).card_type == card_type { Some(s.top.id) } else { None }
}

/// The cards stacked under the top cards, stack by stack and in order.
pub open spec fn all_modifiers(stacks: Seq<Stack>) -> Seq<Card>
    decreases stacks.len(),
{
    if stacks.len() == 0 {
        Seq::empty()
    } else {
        all_modifiers(stacks.drop_last()) + stacks.last().modifiers@
    }
}

/// The index of the first stack whose top card has this id.
pub open spec fn top_position(stacks: Seq<Stack>, card_id: ids::CardId) -> Option<int>
    decreases stacks.len(),
{
    if stacks.len() == 0 {
        None
    } else {
        match top_position(stacks.drop_last(), card_id) {
            Some(i) => Some(i),
            None => if stacks.last().top.id == card_id { Some(stacks.len() - 1) } else { None },
        }
    }
}

/// The index of the first card with this id in a list of cards.
pub open spec fn card_position(cards: Seq<Card>, card_id: ids::CardId) -> Option<int>
    decreases cards.len(),
{
    if cards.len() == 0 {
        None
    } else {
        match card_position(cards.drop_last(), card_id) {
            Some(i) => Some(i),
            None => if cards.last().id == card_id { Some(cards.len() - 1) } else { None },
        }
    }
}

/// The first stack holding a card with this id under its top, with the position of that card.
pub open spec fn modifier_position(stacks: Seq<Stack>, card_id: ids::CardId) -> Option<(int, int)>
    decreases stacks.len(),
{
    if stacks.len() == 0 {
        None
    } else {
        match modifier_position(stacks.drop_last(), card_id) {
            Some(p) => Some(p),
            None => match card_position(stacks.last().modifiers@, card_id) {
                Some(j) => Some((stacks.len() - 1, j)),
                None => None,
            },
        }
    }
}

/// How many stacks of a list count as a hero of this class.
pub open spec fn count_of_type(stacks: Seq<Stack>, hero_type: HeroType) -> nat
    decreases stacks.len(),
{
    if stacks.len() == 0 {
        0
    } else {
        count_of_type(stacks.drop_last(), hero_type) + if stacks.last().spec_hero_type() == Some(hero_type) { 1nat } else { 0nat }
    }
}

/// Whether some stack of the list counts as a hero of this class.
pub open spec fn has_type(stacks: Seq<Stack>, hero_type: HeroType) -> bool {
    exists|i: int| 0 <= i < stacks.len() && #[trigger] stacks[i].spec_hero_type() == Some(hero_type)
}

/// The stacks, one after the other, as a summary of the game shows them.
pub open spec fn stacks_summary(stacks: Seq<Stack>) -> Seq<char>
    decreases stacks.len(),
{
    if stacks.len() == 0 {
        Seq::empty()
    } else {
        stacks_summary(stacks.drop_last()) + stack_summary(stacks.last())
    }
}

/// A deck in a summary of the game, on a line of its own: its label, then its stacks; of
/// a deck of more than eight stacks only the first four and the last four are shown.
pub open spec fn deck_summary(deck: Deck, level: nat) -> Seq<char> {
    let n = deck@.len();
    spaces(level) + deck.spec.path.spec_label() + ": "@ + (if n > 8 {
        stacks_summary(deck@.take(4)) + "...  "@ + stacks_summary(deck@.skip(n - 4))
    } else {
        stacks_summary(deck@)
    }) + "\n"@
}

impl Deck {
    /// Whether every stack is shaped as the game builds stacks.
    pub open spec fn well_formed(self) -> bool {
        forall|i: int| 0 <= i < self@.len() ==> #[trigger] self@[i].well_formed()
    }

    pub open spec fn spec_to_stack_perspectives(self, game: Game, player_index: Option<ids::PlayerIndex>, stacks: Seq<StackPerspective>) -> bool {
        &&& stacks.len() == self@.len()
        &&& forall|i: int| 0 <= i < stacks.len() ==> {
            &&& (#[trigger] stacks[i]).top == self@[i].top.spec_to_perspective(game.spec_was_card_played(player_index, self@[i].top.id))
            &&& stacks[i].modifiers@ == self@[i].modifiers@.map_values(|c: Card| c.spec_to_perspective(false))
        }
    }

    pub fn new(spec: DeckSpec) -> (r: Self)
        ensures
            r@ == Seq::<Stack>::empty(),
            r.spec == spec,
    {
        Self { stacks: VecDeque::new(), spec }
    }

    /// The deck as seen from `perspective`: every stack if visible, only the count otherwise.
    pub fn to_perspective(&self, game: &Game, player_index: Option<ids::PlayerIndex>, perspective: &Perspective) -> (r: DeckPerspective)
        requires
            self.spec.visibility.spec_get(*perspective) != Visibility::Invisible,
            player_index.is_some() ==> player_index.unwrap() < game.players@.len(),
        ensures
            r.count == self@.len(),
            r.path == self.spec.path,
            r.stacks.is_some() == (self.spec.visibility.spec_get(*perspective) == Visibility::Visible),
            r.stacks.is_some() ==> self.spec_to_stack_perspectives(*game, player_index, r.stacks.unwrap()@),
    {
        let visibility = self.spec.visibility.get(perspective);
        match visibility {
            Visibility::Visible => {
                let mut stacks: Vec<StackPerspective> = Vec::new();
                let mut i: usize = 0;
                while i < self.stacks.len()
                    invariant
                        i <= self@.len(),
                        player_index.is_some() ==> player_index.unwrap() < game.players@.len(),
                        stacks@.len() == i,
                        forall|j: int| 0 <= j < i ==> {
                            &&& (#[trigger] stacks@[j]).top == self@[j].top.spec_to_perspective(game.spec_was_card_played(player_index, self@[j].top.id))
                            &&& stacks@[j].modifiers@ == self@[j].modifiers@.map_values(|c: Card| c.spec_to_perspective(false))
                        },
                    decreases self@.len() - i,
                {
                    stacks.push(self.stacks[i].to_perspective(game, player_index));
                    i = i + 1;
                }
                DeckPerspective { count: self.num_top_cards(), path: self.spec.path, stacks: Some(stacks) }
            },
            Visibility::Summary => DeckPerspective { count: self.num_top_cards(), path: self.spec.path, stacks: None },
            Visibility::Invisible => {
                proof { assert(false); }
                DeckPerspective { count: self.num_top_cards(), path: self.spec.path, stacks: None }
            },
        }
    }

    pub fn to_spectator_perspective(&self, game: &Game, player_index: Option<ids::PlayerIndex>) -> (r: DeckPerspective)
        requires
            self.spec.visibility.spectator != Visibility::Invisible,
            player_index.is_some() ==> player_index.unwrap() < game.players@.len(),
        ensures
            r.count == self@.len(),
            r.path == self.spec.path,
            r.stacks.is_some() == (self.spec.visibility.spectator == Visibility::Visible),
            r.stacks.is_some() ==> self.spec_to_stack_perspectives(*game, player_index, r.stacks.unwrap()@),
    {
        self.to_perspective(game, player_index, &Perspective::Spectator)
    }

    pub fn num_top_cards(&self) -> (r: usize)
        ensures
            r == self@.len(),
    {
        self.stacks.len()
    }

    pub fn stacks(&self) -> (r: &VecDeque<Stack>)
        ensures
            r@ == self@,
    {
        &self.stacks
    }

    pub fn stacks_mut(&mut self) -> (r: &mut VecDeque<Stack>)
        ensures
            r@ == old(self)@,
            final(self)@ == final(r)@,
            final(self).spec == old(self).spec,
    {
        &mut self.stacks
    }

    /// Appends the summaries of the stacks from `start` up to `end`.
    fn append_stack_summaries(&self, out: &mut String, start: usize, end: usize)
        requires
            start <= end <= self@.len(),
        ensures
            final(out)@ == old(out)@ + stacks_summary(self@.subrange(start as int, end as int)),
    {
        let mut i: usize = start;
        assert(self@.subrange(start as int, start as int) =~= Seq::<Stack>::empty());
        while i < end
            invariant
                start <= i <= end <= self@.len(),
                out@ == old(out)@ + stacks_summary(self@.subrange(start as int, i as int)),
            decreases end - i,
        {
            let summary = self.stacks[i].summary();
            out.append(summary.as_str());
            i = i + 1;
            assert(self@.subrange(start as int, i as int).drop_last() =~= self@.subrange(start as int, i - 1));
            assert(out@ =~= old(out)@ + stacks_summary(self@.subrange(start as int, i as int)));
        }
    }

    /// The deck as a summary of the game shows it, indented by `indentation_level` levels.
    pub fn summary(&self, indentation_level: u32) -> (r: String)
        ensures
            r@ == deck_summary(*self, indentation_level as nat),
    {
        let mut r = indentation(indentation_level);
        let label = self.spec.path.get_label();
        r.append(label.as_str());
        r.append(": ");
        let num_stacks = self.stacks.len();
        if num_stacks > 8 {
            self.append_stack_summaries(&mut r, 0, 4);
            r.append("...  ");
            self.append_stack_summaries(&mut r, num_stacks - 4, num_stacks);
            assert(self@.subrange(0, 4) =~= self@.take(4));
            assert(self@.subrange(num_stacks - 4, num_stacks as int) =~= self@.skip(num_stacks - 4));
        } else {
            self.append_stack_summaries(&mut r, 0, num_stacks);
            assert(self@.subrange(0, num_stacks as int) =~= self@);
        }
        r.append("\n");
        r
    }

    /// The top card of every stack, in order.
    pub fn tops(&self) -> (r: Vec<Card>)
        ensures
            r@ == self@.map_values(|s: Stack| s.top),
    {
        let mut r: Vec<Card> = Vec::new();
        let mut i: usize = 0;
        while i < self.stacks.len()
            invariant
                i <= self@.len(),
                r@ == self@.take(i as int).map_values(|s: Stack| s.top),
            decreases self@.len() - i,
        {
            r.push(self.stacks[i].top);
            i = i + 1;
            assert(r@ =~= self@.take(i as int).map_values(|s: Stack| s.top));
        }
        assert(self@.take(i as int) =~= self@);
        r
    }

    /// Where the top card of every stack is, in order.
    pub fn top_paths(&self) -> (r: Vec<CardPath>)
        ensures
            r@ == self@.map_values(|s: Stack| CardPath::TopCardIn(self.spec.path, s.top.id)),
    {
        let mut r: Vec<CardPath> = Vec::new();
        let mut i: usize = 0;
        while i < self.stacks.len()
            invariant
                i <= self@.len(),
                r@ == self@.take(i as int).map_values(|s: Stack| CardPath::TopCardIn(self.spec.path, s.top.id)),
            decreases self@.len() - i,
        {
            r.push(CardPath::TopCardIn(self.spec.path, self.stacks[i].top.id));
            i = i + 1;
            assert(r@ =~= self@.take(i as int).map_values(|s: Stack| CardPath::TopCardIn(self.spec.path, s.top.id)));
        }
        assert(self@.take(i as int) =~= self@);
        r
    }

    /// Puts the stacks at the bottom of the deck, in order.
    pub fn extend(&mut self, drained: Vec<Stack>)
        ensures
            final(self)@ == old(self)@ + drained@,
            final(self).spec == old(self).spec,
    {
        let mut drained = drained;
        let ghost original = drained@;
        let ghost start = self@;
        let ghost mut k: int = 0;
        while drained.len() > 0
            invariant
                0 <= k <= original.len(),
                drained@ == original.skip(k),
                self@ == start + original.take(k),
                self.spec == old(self).spec,
            decreases drained@.len(),
        {
            let s = drained.remove(0);
            self.stacks.push_back(s);
            proof {
                assert(original.take(k + 1) =~= original.take(k).push(original[k]));
                assert(original.skip(k + 1) =~= original.skip(k).subrange(1, original.skip(k).len() as int));
                k = k + 1;
            }
        }
        assert(original.take(k) =~= original);
    }

    /// Takes out the stacks from position `start` up to, but not including, `end`.
    pub fn drain(&mut self, start: usize, end: usize) -> (r: Vec<Stack>)
        requires
            start <= end <= old(self)@.len(),
        ensures
            r@ == old(self)@.subrange(start as int, end as int),
            final(self)@ == old(self)@.subrange(0, start as int) + old(self)@.subrange(end as int, old(self)@.len() as int),
            final(self).spec == old(self).spec,
    {
        let mut r: Vec<Stack> = Vec::new();
        let mut n: usize = start;
        let ghost original = self@;
        while n < end
            invariant
                start <= n <= end <= original.len(),
                r@ == original.subrange(start as int, n as int),
                self@ == original.subrange(0, start as int) + original.subrange(n as int, original.len() as int),
                self.spec == old(self).spec,
            decreases end - n,
        {
            let s = self.stacks.remove(start).unwrap();
            r.push(s);
            n = n + 1;
            assert(r@ =~= original.subrange(start as int, n as int));
            assert(self@ =~= original.subrange(0, start as int) + original.subrange(n as int, original.len() as int));
        }
        r
    }

    pub fn is_visible(&self, perspective: &Perspective) -> (r: bool)
        ensures
            r == (self.spec.visibility.spec_get(*perspective) != Visibility::Invisible),
    {
        self.spec.visibility.is_visible(perspective)
    }

    pub fn visible_to_spectator(&self) -> (r: bool)
        ensures
            r == (self.spec.visibility.spectator != Visibility::Invisible),
    {
        self.is_visible(&Perspective::Spectator)
    }

    /// Puts a stack at the bottom of the deck.
    pub fn add(&mut self, stack: Stack)
        ensures
            final(self)@ == old(self)@.push(stack),
            final(self).spec == old(self).spec,
            card_ids(final(self)@) == card_ids(old(self)@) + stack_card_ids(stack),
    {
        proof {
            lemma_card_ids_push(self@, stack);
        }
        self.stacks.push_back(stack);
    }

    /// Puts a card, alone, at the bottom of the deck.
    pub fn add_card(&mut self, c: Card)
        ensures
            final(self)@.len() == old(self)@.len() + 1,
            final(self)@.drop_last() == old(self)@,
            final(self)@.last().top == c,
            final(self)@.last().modifiers@ == Seq::<Card>::empty(),
            final(self).spec == old(self).spec,
    {
        self.stacks.push_back(Stack { top: c, modifiers: Vec::new() });
        assert(self@.drop_last() =~= old(self)@);
    }

    /// Takes every card stacked under a top card out of its stack, stack by stack and in
    /// order; the top cards stay where they are.
    pub fn strip_modifiers(&mut self) -> (r: Vec<Card>)
        ensures
            r@ == all_modifiers(old(self)@),
            final(self)@.len() == old(self)@.len(),
            forall|k: int| 0 <= k < old(self)@.len() ==> (#[trigger] final(self)@[k]).top == old(self)@[k].top
                && final(self)@[k].modifiers@ == Seq::<Card>::empty(),
            final(self).spec == old(self).spec,
    {
        let mut stripped: VecDeque<Stack> = VecDeque::new();
        let mut cards: Vec<Card> = Vec::new();
        let mut i: usize = 0;
        while i < self.stacks.len()
            invariant
                i <= self@.len(),
                self@ == old(self)@,
                self.spec == old(self).spec,
                stripped@.len() == i,
                forall|k: int| 0 <= k < i ==> (#[trigger] stripped@[k]).top == self@[k].top
                    && stripped@[k].modifiers@ == Seq::<Card>::empty(),
                cards@ == all_modifiers(self@.take(i as int)),
            decreases self@.len() - i,
        {
            assert(self@.take(i + 1).drop_last() =~= self@.take(i as int));
            let mut moved = copy_cards(&self.stacks[i].modifiers);
            cards.append(&mut moved);
            stripped.push_back(Stack::new(self.stacks[i].top));
            i = i + 1;
        }
        assert(self@.take(i as int) =~= self@);
        self.stacks = stripped;
        cards
    }

    /// Puts each card, alone, at the bottom of the deck, in order.
    pub fn add_cards(&mut self, cards: Vec<Card>)
        ensures
            final(self)@.len() == old(self)@.len() + cards@.len(),
            forall|k: int| 0 <= k < old(self)@.len() ==> #[trigger] final(self)@[k] == old(self)@[k],
            forall|k: int| 0 <= k < cards@.len() ==> (#[trigger] final(self)@[old(self)@.len() + k]).top == cards@[k]
                && final(self)@[old(self)@.len() + k].modifiers@ == Seq::<Card>::empty(),
            final(self).spec == old(self).spec,
    {
        let mut i: usize = 0;
        while i < cards.len()
            invariant
                i <= cards@.len(),
                self@.len() == old(self)@.len() + i,
                forall|k: int| 0 <= k < old(self)@.len() ==> #[trigger] self@[k] == old(self)@[k],
                forall|k: int| 0 <= k < i ==> (#[trigger] self@[old(self)@.len() + k]).top == cards@[k]
                    && self@[old(self)@.len() + k].modifiers@ == Seq::<Card>::empty(),
                self.spec == old(self).spec,
            decreases cards@.len() - i,
        {
            let ghost before = self@;
            self.add_card(cards[i]);
            proof {
                assert forall|k: int| 0 <= k < before.len() implies #[trigger] self@[k] == before[k] by {
                    assert(self@.drop_last()[k] == before[k]);
                }
            }
            i = i + 1;
        }
    }

    /// Whether the top card of every stack is a monster card.
    pub fn all_monsters(&self) -> (r: bool)
        ensures
            r == forall|k: int| 0 <= k < self@.len() ==> (#[trigger] self@[k]).top.card_type is MonsterCard,
    {
        let mut i: usize = 0;
        while i < self.stacks.len()
            invariant
                i <= self@.len(),
                forall|k: int| 0 <= k < i ==> (#[trigger] self@[k]).top.card_type is MonsterCard,
            decreases self@.len() - i,
        {
            match self.stacks[i].top.card_type {
                SlayCardSpec::MonsterCard(_) => {},
                _ => {
                    return false;
                },
            }
            i = i + 1;
        }
        true
    }

    /// Counts, for each class, the stacks that count as a hero of that class.
    pub fn count_hero_types(&self, hero_types: &mut HeroTypeCounter)
        requires
            self.well_formed(),
            old(hero_types).well_formed(),
            forall|t: HeroType| old(hero_types).count(t) + self@.len() <= u32::MAX,
        ensures
            final(hero_types).well_formed(),
            forall|t: HeroType| #[trigger] final(hero_types).count(t) == old(hero_types).count(t) + count_of_type(self@, t),
            final(hero_types).leader_type == old(hero_types).leader_type,
    {
        let mut i: usize = 0;
        while i < self.stacks.len()
            invariant
                i <= self@.len(),
                self.well_formed(),
                forall|t: HeroType| old(hero_types).count(t) + self@.len() <= u32::MAX,
                forall|t: HeroType| #[trigger] hero_types.count(t) == old(hero_types).count(t) + count_of_type(self@.take(i as int), t),
                hero_types.well_formed(),
                hero_types.leader_type == old(hero_types).leader_type,
            decreases self@.len() - i,
        {
            proof {
                assert(self@.take(i + 1).drop_last() =~= self@.take(i as int));
                assert forall|t: HeroType| count_of_type(self@.take(i as int), t) <= i by {
                    lemma_count_of_type_bounded(self@.take(i as int), t);
                }
                assert(self@[i as int].well_formed());
            }
            hero_types.maybe_add_hero_type(self.stacks[i].get_hero_type());
            i = i + 1;
        }
        assert(self@.take(i as int) =~= self@);
    }

    /// Adds to `hero_types` the classes that the stacks count as, each class once.
    pub fn collect_hero_types(&self, hero_types: &mut Vec<HeroType>)
        requires
            self.well_formed(),
            old(hero_types)@.no_duplicates(),
        ensures
            final(hero_types)@.no_duplicates(),
            forall|t: HeroType| #[trigger] final(hero_types)@.contains(t) <==> (old(hero_types)@.contains(t) || has_type(self@, t)),
    {
        let mut i: usize = 0;
        while i < self.stacks.len()
            invariant
                i <= self@.len(),
                self.well_formed(),
                hero_types@.no_duplicates(),
                forall|t: HeroType| #[trigger] hero_types@.contains(t) <==> (old(hero_types)@.contains(t) || has_type(self@.take(i as int), t)),
            decreases self@.len() - i,
        {
            assert(self@[i as int].well_formed());
            let ghost before = hero_types@;
            let found = self.stacks[i].get_hero_type();
            if let Some(hero_type) = found {
                insert_hero_type(hero_types, hero_type);
            }
            proof {
                assert forall|t: HeroType| #[trigger] hero_types@.contains(t) <==> (before.contains(t) || found == Some(t)) by {}
                assert forall|t: HeroType| #[trigger] before.contains(t) <==> (old(hero_types)@.contains(t) || has_type(self@.take(i as int), t)) by {
                }
                assert forall|t: HeroType| #[trigger] has_type(self@.take(i + 1), t) <==> (has_type(self@.take(i as int), t) || self@[i as int].spec_hero_type() == Some(t)) by {
                    if has_type(self@.take(i + 1), t) {
                        let k = choose|k: int| 0 <= k < self@.take(i + 1).len() && #[trigger] self@.take(i + 1)[k].spec_hero_type() == Some(t);
                        if k < i {
                            assert(self@.take(i as int)[k] == self@.take(i + 1)[k]);
                        }
                    }
                    if has_type(self@.take(i as int), t) {
                        let k = choose|k: int| 0 <= k < self@.take(i as int).len() && #[trigger] self@.take(i as int)[k].spec_hero_type() == Some(t);
                        assert(self@.take(i + 1)[k] == self@.take(i as int)[k]);
                    }
                    if self@[i as int].spec_hero_type() == Some(t) {
                        assert(self@.take(i + 1)[i as int] == self@[i as int]);
                    }
                }
                assert forall|t: HeroType| #[trigger] hero_types@.contains(t) <==> (old(hero_types)@.contains(t) || has_type(self@.take(i + 1), t)) by {
                    assert(before.contains(t) <==> (old(hero_types)@.contains(t) || has_type(self@.take(i as int), t)));
                    assert(has_type(self@.take(i + 1), t) <==> (has_type(self@.take(i as int), t) || self@[i as int].spec_hero_type() == Some(t)));
                }
            }
            i = i + 1;
        }
        assert(self@.take(i as int) =~= self@);
    }

    /// Whether some stack counts as a hero of this class.
    pub fn contains_hero_type(&self, hero_type: &HeroType) -> (r: bool)
        requires
            self.well_formed(),
        ensures
            r == has_type(self@, *hero_type),
    {
        let mut i: usize = 0;
        while i < self.stacks.len()
            invariant
                i <= self@.len(),
                self.well_formed(),
                forall|k: int| 0 <= k < i ==> #[trigger] self@[k].spec_hero_type() != Some(*hero_type),
            decreases self@.len() - i,
        {
            assert(self@[i as int].well_formed());
            match self.stacks[i].get_hero_type() {
                Some(ht) => {
                    if ht == *hero_type {
                        return true;
                    }
                },
                None => {},
            }
            i = i + 1;
        }
        false
    }

    /// The classes that the stacks count as, each once.
    pub fn hero_types(&self) -> (r: Vec<HeroType>)
        requires
            self.well_formed(),
        ensures
            r@.no_duplicates(),
            forall|t: HeroType| #[trigger] r@.contains(t) <==> has_type(self@, t),
    {
        let mut r: Vec<HeroType> = Vec::new();
        self.collect_hero_types(&mut r);
        r
    }

    /// The ids of the top cards whose kind is `card_type`, in order.
    pub fn list_top_cards_by_type(&self, card_type: &CardType) -> (r: Vec<ids::CardId>)
        ensures
            r@ == self@.filter_map(top_id_if_kind(*card_type)),
    {
        let ghost f = top_id_if_kind(*card_type);
        let mut r: Vec<ids::CardId> = Vec::new();
        let mut i: usize = 0;
        while i < self.stacks.len()
            invariant
                i <= self@.len(),
                f == top_id_if_kind(*card_type),
                r@ == self@.take(i as int).filter_map(f),
            decreases self@.len() - i,
        {
            proof { self@.lemma_filter_map_take_succ(f, i as int); }
            if self.stacks[i].top.card_type() == *card_type {
                r.push(self.stacks[i].top.id);
            }
            i = i + 1;
        }
        assert(self@.take(i as int) =~= self@);
        r
    }

    /// Takes out the card with this id: with its whole stack if it is a top card, alone if
    /// it is stacked under another card.  Top cards are looked for first.
    pub fn take(&mut self, card_id: ids::CardId) -> (r: Option<Stack>)
        ensures
            final(self).spec == old(self).spec,
            match top_position(old(self)@, card_id) {
                Some(i) => r == Some(old(self)@[i]) && final(self)@ == old(self)@.remove(i),
                None => match modifier_position(old(self)@, card_id) {
                    Some((i, j)) => {
                        &&& r.is_some()
                        &&& r.unwrap().top == old(self)@[i].modifiers@[j]
                        &&& r.unwrap().modifiers@ == Seq::<Card>::empty()
                        &&& final(self)@.len() == old(self)@.len()
                        &&& forall|k: int| 0 <= k < old(self)@.len() && k != i ==> final(self)@[k] == old(self)@[k]
                        &&& final(self)@[i].top == old(self)@[i].top
                        &&& final(self)@[i].modifiers@ == old(self)@[i].modifiers@.remove(j)
                    },
                    None => r.is_none() && final(self)@ == old(self)@,
                },
            },
    {
        let mut i: usize = 0;
        while i < self.stacks.len()
            invariant
                i <= self@.len(),
                self@ == old(self)@,
                self.spec == old(self).spec,
                top_position(self@.take(i as int), card_id) is None,
            decreases self@.len() - i,
        {
            assert(self@.take(i + 1).drop_last() =~= self@.take(i as int));
            if self.stacks[i].top.id == card_id {
                proof { lemma_top_position_found(self@, card_id, i as int); }
                return self.stacks.remove(i);
            }
            i = i + 1;
        }
        assert(self@.take(i as int) =~= self@);
        let mut i: usize = 0;
        while i < self.stacks.len()
            invariant
                i <= self@.len(),
                self@ == old(self)@,
                self.spec == old(self).spec,
                top_position(self@, card_id) is None,
                modifier_position(self@.take(i as int), card_id) is None,
            decreases self@.len() - i,
        {
            assert(self@.take(i + 1).drop_last() =~= self@.take(i as int));
            let position = find_card(&self.stacks[i].modifiers, card_id);
            let count = self.stacks[i].modifiers.len();
            if let Some(j) = position {
                proof {
                    let mods = self@[i as int].modifiers@;
                    lemma_card_position_id(mods, card_id);
                    let cp = card_position(mods, card_id);
                    assert(cp is Some);
                    let j0 = cp.unwrap();
                    assert(0 <= j0 < mods.len());
                    assert(mods.len() == count);
                    assert(j0 as usize == j);
                    assert(card_position(mods, card_id) == Some(j as int));
                    lemma_modifier_position_found(self@, card_id, i as int, j as int);
                }
                let mut stack = self.stacks.remove(i).unwrap();
                let card = stack.modifiers.remove(j);
                self.stacks.insert(i, stack);
                assert(self@.len() == old(self)@.len());
                assert forall|k: int| 0 <= k < old(self)@.len() && k != i implies self@[k] == old(self)@[k] by {}
                return Some(Stack { top: card, modifiers: Vec::new() });
            }
            i = i + 1;
        }
        assert(self@.take(i as int) =~= self@);
        None
    }

    pub fn take_at_index(&mut self, index: usize) -> (r: Stack)
        requires
            index < old(self)@.len(),
        ensures
            r == old(self)@[index as int],
            final(self)@ == old(self)@.remove(index as int),
            final(self).spec == old(self).spec,
    {
        self.stacks.remove(index).unwrap()
    }

    /// Like `take`, but fails when the card is not in the deck.
    pub fn take_card(&mut self, card_id: ids::CardId) -> (r: SlayResult<Stack>)
        ensures
            final(self).spec == old(self).spec,
            r.is_err() <==> (top_position(old(self)@, card_id) is None && modifier_position(old(self)@, card_id) is None),
            r.is_err() ==> final(self)@ == old(self)@,
            r is Ok ==> card_ids(old(self)@).to_multiset()
                == card_ids(final(self)@).to_multiset().add(stack_card_ids(r.unwrap()).to_multiset()),
            match top_position(old(self)@, card_id) {
                Some(i) => r == Ok::<Stack, SlayError>(old(self)@[i]) && final(self)@ == old(self)@.remove(i),
                None => match modifier_position(old(self)@, card_id) {
                    Some((i, j)) => {
                        &&& r.is_ok()
                        &&& r.unwrap().top == old(self)@[i].modifiers@[j]
                        &&& r.unwrap().modifiers@ == Seq::<Card>::empty()
                        &&& final(self)@.len() == old(self)@.len()
                        &&& forall|k: int| 0 <= k < old(self)@.len() && k != i ==> final(self)@[k] == old(self)@[k]
                        &&& final(self)@[i].top == old(self)@[i].top
                        &&& final(self)@[i].modifiers@ == old(self)@[i].modifiers@.remove(j)
                    },
                    None => true,
                },
            },
    {
        let ghost before = self@;
        match self.take(card_id) {
            Some(stack) => {
                proof {
                    match top_position(before, card_id) {
                        Some(i) => {
                            lemma_top_position_id(before, card_id);
                            lemma_card_ids_remove(before, i);
                        },
                        None => {
                            let (i, j) = modifier_position(before, card_id).unwrap();
                            lemma_modifier_position_id(before, card_id);
                            lemma_taken_modifier_ids(before, self@, i, j, stack);
                        },
                    }
                }
                Ok(stack)
            },
            None => Err(SlayError::new("Unable to find card in deck.")),
        }
    }

    /// Takes out the first stack, if there is one.
    pub fn maybe_deal(&mut self) -> (r: Option<Stack>)
        ensures
            old(self)@.len() == 0 ==> r.is_none() && final(self)@ == old(self)@,
            old(self)@.len() > 0 ==> r == Some(old(self)@[0]) && final(self)@ == old(self)@.drop_first(),
            final(self).spec == old(self).spec,
    {
        self.stacks.pop_front()
    }

    /// Takes out the first stack.
    pub fn deal(&mut self) -> (r: Stack)
        requires
            old(self)@.len() > 0,
        ensures
            r == old(self)@[0],
            final(self)@ == old(self)@.drop_first(),
            final(self).spec == old(self).spec,
    {
        self.stacks.pop_front().unwrap()
    }

    /// The top card with this id.
    pub fn card(&self, card_id: u32) -> (r: Option<&Card>)
        ensures
            match top_position(self@, card_id) {
                Some(i) => r == Some(&self@[i].top),
                None => r.is_none(),
            },
    {
        let mut i: usize = 0;
        while i < self.stacks.len()
            invariant
                i <= self@.len(),
                top_position(self@.take(i as int), card_id) is None,
            decreases self@.len() - i,
        {
            assert(self@.take(i + 1).drop_last() =~= self@.take(i as int));
            if self.stacks[i].top.id == card_id {
                proof { lemma_top_position_found(self@, card_id, i as int); }
                return Some(&self.stacks[i].top);
            }
            i = i + 1;
        }
        assert(self@.take(i as int) =~= self@);
        None
    }

    /// The card with id `modifier_card_id` stacked under the first top card with id
    /// `top_card_id` that has one.
    pub fn modifier(&self, top_card_id: u32, modifier_card_id: u32) -> (r: Option<&Card>)
        ensures
            r.is_some() <==> exists|i: int| 0 <= i < self@.len() && #[trigger] self@[i].top.id == top_card_id
                && card_position(self@[i].modifiers@, modifier_card_id) is Some,
            r.is_some() ==> r.unwrap().id == modifier_card_id,
    {
        let mut i: usize = 0;
        while i < self.stacks.len()
            invariant
                i <= self@.len(),
                forall|k: int| 0 <= k < i && #[trigger] self@[k].top.id == top_card_id ==> card_position(self@[k].modifiers@, modifier_card_id) is None,
            decreases self@.len() - i,
        {
            if self.stacks[i].top.id == top_card_id {
                if let Some(j) = find_card(&self.stacks[i].modifiers, modifier_card_id) {
                    return Some(&self.stacks[i].modifiers[j]);
                }
            }
            i = i + 1;
        }
        None
    }
}

/// The position of the first card with this id.
pub fn find_card(cards: &Vec<Card>, card_id: ids::CardId) -> (r: Option<usize>)
    ensures
        match card_position(cards@, card_id) {
            Some(j) => r == Some(j as usize),
            None => r.is_none(),
        },
        r.is_some() ==> r.unwrap() < cards@.len() && cards@[r.unwrap() as int].id == card_id,
{
    let mut j: usize = 0;
    while j < cards.len()
        invariant
            j <= cards@.len(),
            card_position(cards@.take(j as int), card_id) is None,
        decreases cards@.len() - j,
    {
        assert(cards@.take(j + 1).drop_last() =~= cards@.take(j as int));
        if cards[j].id == card_id {
            proof { lemma_card_position_found(cards@, card_id, j as int); }
            return Some(j);
        }
        j = j + 1;
    }
    assert(cards@.take(j as int) =~= cards@);
    None
}

/// The ids of the cards of a stack: its top card, then the cards under it.
pub open spec fn stack_card_ids(stack: Stack) -> Seq<ids::CardId> {
    seq![stack.top.id] + stack.modifiers@.map_values(|c: Card| c.id)
}

/// The ids of the cards of a list of stacks, stack after stack.
pub open spec fn card_ids(stacks: Seq<Stack>) -> Seq<ids::CardId>
    decreases stacks.len(),
{
    if stacks.len() == 0 {
        Seq::empty()
    } else {
        card_ids(stacks.drop_last()) + stack_card_ids(stacks.last())
    }
}

/// Putting a stack at the end adds its cards at the end.
pub proof fn lemma_card_ids_push(stacks: Seq<Stack>, stack: Stack)
    ensures
        card_ids(stacks.push(stack)) == card_ids(stacks) + stack_card_ids(stack),
{
    assert(stacks.push(stack).drop_last() =~= stacks);
}

/// Replacing one stack trades its cards for those of the new stack.
pub proof fn lemma_card_ids_update(stacks: Seq<Stack>, i: int, stack: Stack)
    requires
        0 <= i < stacks.len(),
    ensures
        card_ids(stacks).to_multiset().add(stack_card_ids(stack).to_multiset())
            == card_ids(stacks.update(i, stack)).to_multiset().add(stack_card_ids(stacks[i]).to_multiset()),
    decreases stacks.len(),
{
    broadcast use vstd::multiset::group_multiset_axioms;
    let updated = stacks.update(i, stack);
    vstd::seq_lib::lemma_multiset_commutative(card_ids(stacks.drop_last()), stack_card_ids(stacks.last()));
    vstd::seq_lib::lemma_multiset_commutative(card_ids(updated.drop_last()), stack_card_ids(updated.last()));
    assert(card_ids(stacks) == card_ids(stacks.drop_last()) + stack_card_ids(stacks.last()));
    assert(card_ids(updated) == card_ids(updated.drop_last()) + stack_card_ids(updated.last()));
    if i == stacks.len() - 1 {
        assert(updated.drop_last() =~= stacks.drop_last());
        assert(updated.last() == stack);
        assert(stacks.last() == stacks[i]);
        let a = card_ids(stacks.drop_last());
        assert(card_ids(updated.drop_last()) == a);
        assert(card_ids(stacks).to_multiset() == a.to_multiset().add(stack_card_ids(stacks[i]).to_multiset()));
        assert(card_ids(updated).to_multiset() == a.to_multiset().add(stack_card_ids(stack).to_multiset()));
        let left = card_ids(stacks).to_multiset().add(stack_card_ids(stack).to_multiset());
        let right = card_ids(updated).to_multiset().add(stack_card_ids(stacks[i]).to_multiset());
        assert forall|v: ids::CardId| #[trigger] left.count(v) == right.count(v) by {}
        assert(left =~= right);
    } else {
        lemma_card_ids_update(stacks.drop_last(), i, stack);
        assert(updated.drop_last() =~= stacks.drop_last().update(i, stack));
        assert(updated.last() == stacks.last());
        assert(stacks.drop_last()[i] == stacks[i]);
        let d = stacks.drop_last();
        let l = stack_card_ids(stacks.last());
        assert(card_ids(updated.drop_last()) == card_ids(d.update(i, stack)));
        assert(card_ids(stacks).to_multiset() == card_ids(d).to_multiset().add(l.to_multiset()));
        assert(card_ids(updated).to_multiset() == card_ids(d.update(i, stack)).to_multiset().add(l.to_multiset()));
        let left = card_ids(stacks).to_multiset().add(stack_card_ids(stack).to_multiset());
        let right = card_ids(updated).to_multiset().add(stack_card_ids(stacks[i]).to_multiset());
        let left_rec = card_ids(d).to_multiset().add(stack_card_ids(stack).to_multiset());
        let right_rec = card_ids(d.update(i, stack)).to_multiset().add(stack_card_ids(d[i]).to_multiset());
        assert forall|v: ids::CardId| #[trigger] left.count(v) == right.count(v) by {
            assert(left_rec.count(v) == right_rec.count(v));
        }
        assert(left =~= right);
    }
}

/// Taking a card from under the top of a stack takes out that card, and no other.
proof fn lemma_taken_modifier_ids(before: Seq<Stack>, after: Seq<Stack>, i: int, j: int, taken: Stack)
    requires
        0 <= i < before.len(),
        0 <= j < before[i].modifiers@.len(),
        after.len() == before.len(),
        forall|k: int| 0 <= k < before.len() && k != i ==> after[k] == before[k],
        after[i].top == before[i].top,
        after[i].modifiers@ == before[i].modifiers@.remove(j),
        taken.top == before[i].modifiers@[j],
        taken.modifiers@ == Seq::<Card>::empty(),
    ensures
        card_ids(before).to_multiset() == card_ids(after).to_multiset().add(stack_card_ids(taken).to_multiset()),
{
    broadcast use vstd::multiset::group_multiset_axioms;
    broadcast use vstd::seq_lib::lemma_multiset_commutative;
    broadcast use vstd::seq_lib::to_multiset_remove;
    broadcast use vstd::seq_lib::to_multiset_contains;
    broadcast use vstd::seq_lib::to_multiset_build;
    assert(after =~= before.update(i, after[i]));
    lemma_card_ids_update(before, i, after[i]);
    let old_ids = before[i].modifiers@.map_values(|c: Card| c.id);
    let new_ids = after[i].modifiers@.map_values(|c: Card| c.id);
    assert(new_ids =~= old_ids.remove(j));
    assert(stack_card_ids(taken) =~= seq![taken.top.id]);
    let whole = card_ids(before).to_multiset();
    let rest = card_ids(after).to_multiset();
    let one = stack_card_ids(taken).to_multiset();
    let before_stack = stack_card_ids(before[i]).to_multiset();
    let after_stack = stack_card_ids(after[i]).to_multiset();
    assert(old_ids[j] == taken.top.id);
    assert(before_stack =~= after_stack.add(one)) by {
        let x = old_ids[j];
        assert(new_ids.to_multiset() == old_ids.to_multiset().remove(x));
        assert(old_ids.contains(x));
        assert(old_ids.to_multiset().count(x) > 0);
        let tops = seq![before[i].top.id].to_multiset();
        assert(stack_card_ids(before[i]) == seq![before[i].top.id] + old_ids);
        assert(stack_card_ids(after[i]) == seq![before[i].top.id] + new_ids);
        assert(before_stack == tops.add(old_ids.to_multiset()));
        assert(after_stack == tops.add(new_ids.to_multiset()));
        assert(one == seq![x].to_multiset());
        assert forall|v: ids::CardId| #[trigger] before_stack.count(v) == after_stack.add(one).count(v) by {
            assert(seq![x].to_multiset().count(v) == if v == x { 1nat } else { 0nat }) by {
                assert(seq![x] =~= Seq::<ids::CardId>::empty().push(x));
            }
        }
    }
    assert forall|v: ids::CardId| #[trigger] whole.count(v) == rest.add(one).count(v) by {
        assert(whole.add(after_stack).count(v) == rest.add(before_stack).count(v));
    }
    assert(whole =~= rest.add(one));
}

/// Taking a stack out takes out its cards, and no others.
pub proof fn lemma_card_ids_remove(stacks: Seq<Stack>, i: int)
    requires
        0 <= i < stacks.len(),
    ensures
        card_ids(stacks).to_multiset() == card_ids(stacks.remove(i)).to_multiset().add(stack_card_ids(stacks[i]).to_multiset()),
    decreases stacks.len(),
{
    broadcast use vstd::seq_lib::lemma_multiset_commutative;
    let removed = stacks.remove(i);
    if i == stacks.len() - 1 {
        assert(removed =~= stacks.drop_last());
    } else {
        lemma_card_ids_remove(stacks.drop_last(), i);
        assert(removed.drop_last() =~= stacks.drop_last().remove(i));
        assert(removed.last() == stacks.last());
    }
    assert(card_ids(stacks).to_multiset() =~= card_ids(removed).to_multiset().add(stack_card_ids(stacks[i]).to_multiset()));
}

/// The stack that `top_position` finds is in range and topped by a card with the id.
pub proof fn lemma_top_position_id(stacks: Seq<Stack>, card_id: ids::CardId)
    ensures
        top_position(stacks, card_id) matches Some(i) ==> 0 <= i < stacks.len() && stacks[i].top.id == card_id,
    decreases stacks.len(),
{
    if stacks.len() > 0 {
        lemma_top_position_id(stacks.drop_last(), card_id);
    }
}

/// The card that `card_position` finds is in range and has the id.
pub proof fn lemma_card_position_id(cards: Seq<Card>, card_id: ids::CardId)
    ensures
        card_position(cards, card_id) matches Some(j) ==> 0 <= j < cards.len() && cards[j].id == card_id,
    decreases cards.len(),
{
    if cards.len() > 0 {
        lemma_card_position_id(cards.drop_last(), card_id);
    }
}

/// The card that `modifier_position` finds is in range and has the id.
pub proof fn lemma_modifier_position_id(stacks: Seq<Stack>, card_id: ids::CardId)
    ensures
        modifier_position(stacks, card_id) matches Some((i, j)) ==> 0 <= i < stacks.len() && 0 <= j < stacks[i].modifiers@.len()
            && stacks[i].modifiers@[j].id == card_id,
    decreases stacks.len(),
{
    if stacks.len() > 0 {
        lemma_modifier_position_id(stacks.drop_last(), card_id);
        lemma_card_position_id(stacks.last().modifiers@, card_id);
    }
}

proof fn lemma_top_position_found(stacks: Seq<Stack>, card_id: ids::CardId, i: int)
    requires
        0 <= i < stacks.len(),
        top_position(stacks.take(i), card_id) is None,
        stacks[i].top.id == card_id,
    ensures
        top_position(stacks, card_id) == Some(i),
    decreases stacks.len(),
{
    if i + 1 < stacks.len() {
        assert(stacks.drop_last().take(i) =~= stacks.take(i));
        lemma_top_position_found(stacks.drop_last(), card_id, i);
    } else {
        assert(stacks.drop_last() =~= stacks.take(i));
    }
}

proof fn lemma_card_position_found(cards: Seq<Card>, card_id: ids::CardId, j: int)
    requires
        0 <= j < cards.len(),
        card_position(cards.take(j), card_id) is None,
        cards[j].id == card_id,
    ensures
        card_position(cards, card_id) == Some(j),
    decreases cards.len(),
{
    if j + 1 < cards.len() {
        assert(cards.drop_last().take(j) =~= cards.take(j));
        lemma_card_position_found(cards.drop_last(), card_id, j);
    } else {
        assert(cards.drop_last() =~= cards.take(j));
    }
}

proof fn lemma_modifier_position_found(stacks: Seq<Stack>, card_id: ids::CardId, i: int, j: int)
    requires
        0 <= i < stacks.len(),
        modifier_position(stacks.take(i), card_id) is None,
        card_position(stacks[i].modifiers@, card_id) == Some(j),
    ensures
        modifier_position(stacks, card_id) == Some((i, j)),
    decreases stacks.len(),
{
    if i + 1 < stacks.len() {
        assert(stacks.drop_last().take(i) =~= stacks.take(i));
        lemma_modifier_position_found(stacks.drop_last(), card_id, i, j);
    } else {
        assert(stacks.drop_last() =~= stacks.take(i));
    }
}

pub proof fn lemma_count_of_type_bounded(stacks: Seq<Stack>, t: HeroType)
    ensures
        count_of_type(stacks, t) <= stacks.len(),
    decreases stacks.len(),
{
    if stacks.len() > 0 {
        lemma_count_of_type_bounded(stacks.drop_last(), t);
    }
}

/// Adds a class to a list of classes, unless it is already there.
pub fn insert_hero_type(hero_types: &mut Vec<HeroType>, hero_type: HeroType)
    requires
        old(hero_types)@.no_duplicates(),
    ensures
        final(hero_types)@.no_duplicates(),
        forall|t: HeroType| #[trigger] final(hero_types)@.contains(t) <==> (old(hero_types)@.contains(t) || t == hero_type),
{
    let mut i: usize = 0;
    while i < hero_types.len()
        invariant
            i <= hero_types@.len(),
            hero_types@ == old(hero_types)@,
            old(hero_types)@.no_duplicates(),
            forall|k: int| 0 <= k < i ==> #[trigger] hero_types@[k] != hero_type,
        decreases hero_types@.len() - i,
    {
        if hero_types[i] == hero_type {
            assert(hero_types@[i as int] == hero_type);
            return;
        }
        i = i + 1;
    }
    hero_types.push(hero_type);
    proof {
        assert forall|a: int, b: int| 0 <= a < hero_types@.len() && 0 <= b < hero_types@.len() && a != b implies hero_types@[a] != hero_types@[b] by {
            if a < old(hero_types)@.len() && b < old(hero_types)@.len() {
                assert(old(hero_types)@[a] != old(hero_types)@[b]);
            }
        }
        assert forall|t: HeroType| #[trigger] hero_types@.contains(t) <==> (old(hero_types)@.contains(t) || t == hero_type) by {
            if hero_types@.contains(t) {
                let k = choose|k: int| 0 <= k < hero_types@.len() && hero_types@[k] == t;
                if k < old(hero_types)@.len() {
                    assert(old(hero_types)@[k] == t);
                }
            }
            if old(hero_types)@.contains(t) {
                let k = choose|k: int| 0 <= k < old(hero_types)@.len() && old(hero_types)@[k] == t;
                assert(hero_types@[k] == t);
            }
            if t == hero_type {
                assert(hero_types@[old(hero_types)@.len() as int] == t);
            }
        }
    }
}

impl DeckPerspective {
    /// The options shown on this deck.
    pub fn choices(&self, choices: &Option<ChoicesPerspective>) -> (r: Vec<ChoicePerspective>)
        ensures
            match choices {
                Some(c) => r@ == filtered_options(c.options@, OptionFilter::At(DisplayPath::DeckAt(self.path))),
                None => r@ == Seq::<ChoicePerspective>::empty(),
            },
    {
        if let Some(choices) = choices {
            choices.represented_by(&DisplayPath::DeckAt(self.path))
        } else {
            Vec::new()
        }
    }
}

} // verus!
