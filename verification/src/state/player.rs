use vstd::prelude::*;

use crate::choices::{ChoicePerspective, Choices, ChoicesPerspective, DisplayPath};
use crate::errors::SlayResult;
use crate::ids;
use crate::specification::HeroType;
use crate::specs::cards::SlayCardSpec;
use crate::specs::monster::{monster_spec_view, Monster};
use crate::specs::visibility::{Perspective, Visibility, VisibilitySpec};
use crate::state::deck::{count_of_type, deck_summary, has_type, Deck, DeckPath, DeckPerspective, DeckSpec};
use crate::text::{decimal, decimal_text, indentation, spaces};
use crate::state::game::{Game, GamePerspective, GameStaticInformation};
use crate::state::stack::{Card, Stack};
use crate::state::status_effects::{active_during, PlayerStatusEffects};
use crate::state::turn::Turn;
use crate::status_effects::effect::PlayerStatusEffect;
use crate::tasks::{PlayerTask, PlayerTasks};

verus! {

/// Position of a class in a counter.
pub open spec fn hero_type_index(hero_type: HeroType) -> int {
    match hero_type {
        HeroType::Bard => 0,
        HeroType::Wizard => 1,
        HeroType::Fighter => 2,
        HeroType::Gaurdian => 3,
        HeroType::Ranger => 4,
        HeroType::Thief => 5,
    }
}

fn index_of(hero_type: HeroType) -> (r: usize)
    ensures
        r == hero_type_index(hero_type),
{
    match hero_type {
        HeroType::Bard => 0,
        HeroType::Wizard => 1,
        HeroType::Fighter => 2,
        HeroType::Gaurdian => 3,
        HeroType::Ranger => 4,
        HeroType::Thief => 5,
    }
}

/// Counts heroes by class, and remembers the class of the party leader while it has not
/// been used to meet a requirement.
#[derive(Debug, Clone)]
pub struct HeroTypeCounter {
    pub counts: Vec<u32>,
    pub leader_type: Option<HeroType>,
}

impl HeroTypeCounter {
    pub open spec fn well_formed(self) -> bool {
        self.counts@.len() == 6
    }

    /// How many heroes of the class were counted.
    pub open spec fn count(self, hero_type: HeroType) -> nat {
        self.counts@[hero_type_index(hero_type)] as nat
    }

    /// How many heroes were counted, all classes together.
    pub open spec fn total(self) -> nat {
        self.count(HeroType::Bard) + self.count(HeroType::Wizard) + self.count(HeroType::Fighter)
            + self.count(HeroType::Gaurdian) + self.count(HeroType::Ranger) + self.count(HeroType::Thief)
    }

    /// A counter at zero for every class, with no leader.
    pub fn new() -> (r: Self)
        ensures
            r.well_formed(),
            forall|t: HeroType| #[trigger] r.count(t) == 0,
            r.leader_type is None,
    {
        HeroTypeCounter { counts: vec![0, 0, 0, 0, 0, 0], leader_type: None }
    }

    /// Uses up one counted hero of the class, where there is one; says whether there was.
    pub fn try_to_take_one_away(&mut self, hero_type: HeroType) -> (r: bool)
        requires
            old(self).well_formed(),
        ensures
            final(self).well_formed(),
            r == (old(self).count(hero_type) > 0),
            r ==> final(self).count(hero_type) == old(self).count(hero_type) - 1,
            !r ==> final(self).count(hero_type) == old(self).count(hero_type),
            forall|t: HeroType| t != hero_type ==> #[trigger] final(self).count(t) == old(self).count(t),
            final(self).leader_type == old(self).leader_type,
    {
        let i = index_of(hero_type);
        let previous = self.counts[i];
        if previous == 0 {
            return false;
        }
        self.counts.set(i, previous - 1);
        assert forall|t: HeroType| t != hero_type implies #[trigger] self.count(t) == old(self).count(t) by {
            assert(hero_type_index(t) != hero_type_index(hero_type));
        }
        true
    }

    /// How many heroes were counted, all classes together.
    pub fn sum(&self) -> (r: u64)
        requires
            self.well_formed(),
        ensures
            r == self.total(),
    {
        self.counts[0] as u64 + self.counts[1] as u64 + self.counts[2] as u64 + self.counts[3] as u64
            + self.counts[4] as u64 + self.counts[5] as u64
    }

    /// How many heroes of the class were counted.
    pub fn get(&self, hero_type: HeroType) -> (r: u32)
        requires
            self.well_formed(),
        ensures
            r == self.count(hero_type),
    {
        self.counts[index_of(hero_type)]
    }

    /// Counts one more hero of the class.
    pub fn add_hero_type(&mut self, hero_type: &HeroType)
        requires
            old(self).well_formed(),
            old(self).count(*hero_type) < u32::MAX,
        ensures
            final(self).well_formed(),
            final(self).count(*hero_type) == old(self).count(*hero_type) + 1,
            forall|t: HeroType| t != *hero_type ==> #[trigger] final(self).count(t) == old(self).count(t),
            final(self).leader_type == old(self).leader_type,
    {
        let i = index_of(*hero_type);
        let previous = self.counts[i];
        self.counts.set(i, previous + 1);
        assert forall|t: HeroType| t != *hero_type implies #[trigger] self.count(t) == old(self).count(t) by {
            assert(hero_type_index(t) != hero_type_index(*hero_type));
        }
    }

    /// Counts one more hero of the class, if there is one.
    pub fn maybe_add_hero_type(&mut self, hero_type_option: Option<HeroType>)
        requires
            old(self).well_formed(),
            forall|t: HeroType| old(self).count(t) < u32::MAX,
        ensures
            final(self).well_formed(),
            forall|t: HeroType| #[trigger] final(self).count(t) == old(self).count(t) + if hero_type_option == Some(t) { 1nat } else { 0nat },
            final(self).leader_type == old(self).leader_type,
    {
        if let Some(hero_type) = hero_type_option {
            self.add_hero_type(&hero_type);
        }
    }
}

/// The number of action points that a list of effects grants beyond the usual ones.
pub open spec fn extra_action_points(modifiers: Seq<PlayerStatusEffect>) -> nat
    decreases modifiers.len(),
{
    if modifiers.len() == 0 {
        0
    } else {
        extra_action_points(modifiers.drop_last()) + if modifiers.last() == PlayerStatusEffect::ExtraActionPoint { 1nat } else { 0nat }
    }
}

/// The action points that the slain monster on top of a stack grants beyond the usual ones.
pub open spec fn monster_action_points(card: Card) -> nat {
    match card.card_type {
        SlayCardSpec::MonsterCard(m) => extra_action_points(monster_spec_view(m).modifiers),
        _ => 0,
    }
}

/// The action points that a list of slain monsters grants beyond the usual ones.
pub open spec fn slain_action_points(stacks: Seq<Stack>) -> nat
    decreases stacks.len(),
{
    if stacks.len() == 0 {
        0
    } else {
        slain_action_points(stacks.drop_last()) + monster_action_points(stacks.last().top)
    }
}

/// A player's action points at the start of a turn: three, and one more for each slain
/// monster effect that grants one.
pub open spec fn total_action_points(slain: Seq<Stack>) -> int {
    3 + slain_action_points(slain) as int
}

/// A player: their cards, the tasks and choices in front of them and their status effects.
#[derive(Debug)]
pub struct Player {
    pub player_index: ids::PlayerIndex,
    pub name: String,
    pub temporary_buffs: PlayerStatusEffects,
    pub choices: Option<Choices>,
    pub tasks: PlayerTasks,
    pub leader: Card,
    pub hand: Deck,
    pub party: Deck,
    pub slain_monsters: Deck,
    /// The cards played during the current turn, each once.
    pub played_this_turn: Vec<ids::CardId>,
    /// The action points left in the current turn.
    pub remaining_action_points: u32,
}

impl Player {
    /// The player's part of a summary of the game: a line naming the player, then the
    /// player's hand, party and slain monsters, one level further in.
    pub fn summary(&self, indentation_level: u32) -> (r: String)
        requires
            indentation_level < u32::MAX,
        ensures
            r@ == spaces(indentation_level as nat) + "player "@ + decimal(self.player_index as nat) + "\n"@
                + deck_summary(self.hand, indentation_level as nat + 1)
                + deck_summary(self.party, indentation_level as nat + 1)
                + deck_summary(self.slain_monsters, indentation_level as nat + 1),
    {
        let mut r = indentation(indentation_level);
        r.append("player ");
        let digits = decimal_text(self.player_index as u64);
        r.append(digits.as_str());
        r.append("\n");
        let hand = self.hand.summary(indentation_level + 1);
        r.append(hand.as_str());
        let party = self.party.summary(indentation_level + 1);
        r.append(party.as_str());
        let slain = self.slain_monsters.summary(indentation_level + 1);
        r.append(slain.as_str());
        r
    }

    /// The cards played during the current turn, each once.
    pub open spec fn played(self) -> Seq<ids::CardId> {
        self.played_this_turn@
    }

    /// The action points left in the current turn.
    pub open spec fn action_points(self) -> u32 {
        self.remaining_action_points
    }

    pub open spec fn spec_was_card_played(self, card_id: ids::CardId) -> bool {
        self.played().contains(card_id)
    }

    /// The player as the game builds it, with the same index, name and leader, but its tasks replaced.
    pub open spec fn well_formed(self) -> bool {
        &&& self.tasks.well_formed()
        &&& self.hand.well_formed()
        &&& self.party.well_formed()
        &&& self.slain_monsters.well_formed()
        &&& self.played().no_duplicates()
    }

    /// Whether every slain monster is a monster card.
    pub open spec fn slain_are_monsters(self) -> bool {
        forall|i: int| 0 <= i < self.slain_monsters@.len() ==> (#[trigger] self.slain_monsters@[i]).top.card_type is MonsterCard
    }

    /// Puts back the task that was taken last; fails where one was put back already.
    pub fn put_current_task_back(&mut self, task: PlayerTask) -> (r: SlayResult<()>)
        ensures
            r is Err <==> old(self).tasks.has_current(),
            r is Ok ==> final(self).tasks.queue() == old(self).tasks.queue_with_current(task),
            r is Err ==> final(self).tasks == old(self).tasks,
            final(self).tasks.well_formed() == old(self).tasks.well_formed(),
            final(self).tasks.player_values() == old(self).tasks.player_values(),
            final(self).tasks.card_values() == old(self).tasks.card_values(),
            *final(self) == (Player { tasks: final(self).tasks, ..*old(self) }),
    {
        self.tasks.put_current_task_back(task)
    }

    /// The hand, the party and the slain monsters, in that order.
    pub fn decks(&self) -> (r: [&Deck; 3])
        ensures
            *r[0] == self.hand,
            *r[1] == self.party,
            *r[2] == self.slain_monsters,
    {
        [&self.hand, &self.party, &self.slain_monsters]
    }

    /// The hand, the party and the slain monsters, in that order, to be changed.
    pub fn decks_mut(&mut self) -> (r: [&mut Deck; 3])
        ensures
            *r[0] == old(self).hand,
            *r[1] == old(self).party,
            *r[2] == old(self).slain_monsters,
            *final(self) == (Player { hand: *final(r[0]), party: *final(r[1]), slain_monsters: *final(r[2]), ..*old(self) }),
    {
        [&mut self.hand, &mut self.party, &mut self.slain_monsters]
    }

    /// A player with no cards but the leader, no tasks, no effects and no action points.
    pub fn new(name: String, player_index: ids::PlayerIndex, leader: Card) -> (r: Self)
        ensures
            r.player_index == player_index,
            r.name@ == name@,
            r.leader == leader,
            r.choices is None,
            r.tasks.queue() == Seq::<PlayerTask>::empty(),
            !r.tasks.has_current(),
            r.well_formed(),
            r.temporary_buffs@ == Seq::<crate::status_effects::temp_effect::TemporaryPlayerStatusEffect>::empty(),
            r.action_points() == 0,
            r.played() == Seq::<ids::CardId>::empty(),
            r.hand@ == Seq::<Stack>::empty(),
            r.hand.spec == (DeckSpec { visibility: VisibilitySpec::spec_summary(), path: DeckPath::Hand(player_index) }),
            r.party@ == Seq::<Stack>::empty(),
            r.party.spec == (DeckSpec { visibility: VisibilitySpec::spec_visible(), path: DeckPath::Party(player_index) }),
            r.slain_monsters@ == Seq::<Stack>::empty(),
            r.slain_monsters.spec == (DeckSpec { visibility: VisibilitySpec::spec_visible(), path: DeckPath::SlainMonsters(player_index) }),
    {
        let r = Player {
            player_index,
            name,
            choices: None,
            tasks: PlayerTasks::empty(),
            remaining_action_points: 0,
            leader,
            temporary_buffs: PlayerStatusEffects::new(),
            hand: Deck::new(DeckSpec { visibility: VisibilitySpec::summary(), path: DeckPath::Hand(player_index) }),
            party: Deck::new(DeckSpec { visibility: VisibilitySpec::visible(), path: DeckPath::Party(player_index) }),
            slain_monsters: Deck::new(
                DeckSpec { visibility: VisibilitySpec::visible(), path: DeckPath::SlainMonsters(player_index) },
            ),
            played_this_turn: Vec::new(),
        };
        assert(r.played().no_duplicates());
        r
    }

    /// Starts a turn: the player gets their full action points.
    pub fn turn_begin(&mut self)
        requires
            old(self).slain_are_monsters(),
            total_action_points(old(self).slain_monsters@) <= u32::MAX,
        ensures
            final(self).action_points() == total_action_points(old(self).slain_monsters@),
            *final(self) == (Player { remaining_action_points: final(self).remaining_action_points, ..*old(self) }),
    {
        self.remaining_action_points = self.calculate_total_action_points();
    }

    /// Spends action points.
    pub fn action_points_used(&mut self, amount: u32)
        requires
            amount <= old(self).action_points(),
        ensures
            final(self).action_points() == old(self).action_points() - amount,
            *final(self) == (Player { remaining_action_points: final(self).remaining_action_points, ..*old(self) }),
    {
        self.remaining_action_points = self.remaining_action_points - amount;
    }

    /// Records that the card was played this turn.
    pub fn set_card_played(&mut self, card_id: ids::CardId)
        requires
            old(self).played().no_duplicates(),
        ensures
            final(self).played().no_duplicates(),
            forall|c: ids::CardId| #[trigger] final(self).spec_was_card_played(c) == (old(self).spec_was_card_played(c) || c == card_id),
            *final(self) == (Player { played_this_turn: final(self).played_this_turn, ..*old(self) }),
    {
        if !self.was_card_played(&card_id) {
            let ghost before = self.played();
            self.played_this_turn.push(card_id);
            proof {
                assert(self.played() == before.push(card_id));
                assert forall|a: int, b: int| 0 <= a < b < self.played().len() implies self.played()[a] != self.played()[b] by {
                    if b < before.len() {
                        assert(before[a] != before[b]);
                    } else {
                        assert(!before.contains(card_id));
                        assert(before[a] != card_id);
                    }
                }
                assert forall|c: ids::CardId| #[trigger] self.spec_was_card_played(c) == (old(self).spec_was_card_played(c) || c == card_id) by {
                    if self.played().contains(c) {
                        let k = choose|k: int| 0 <= k < self.played().len() && self.played()[k] == c;
                        if k < before.len() {
                            assert(before[k] == c);
                        }
                    }
                    if before.contains(c) {
                        let k = choose|k: int| 0 <= k < before.len() && before[k] == c;
                        assert(self.played()[k] == c);
                    }
                    if c == card_id {
                        assert(self.played()[before.len() as int] == c);
                    }
                }
            }
        }
    }

    /// Whether the card was played this turn.
    pub fn was_card_played(&self, card_id: &ids::CardId) -> (r: bool)
        ensures
            r == self.spec_was_card_played(*card_id),
    {
        let mut i: usize = 0;
        while i < self.played_this_turn.len()
            invariant
                i <= self.played_this_turn@.len(),
                forall|j: int| 0 <= j < i ==> self.played_this_turn@[j] != *card_id,
            decreases self.played_this_turn@.len() - i,
        {
            if self.played_this_turn[i] == *card_id {
                assert(self.played()[i as int] == *card_id);
                return true;
            }
            i = i + 1;
        }
        false
    }

    /// Ends a turn: no card counts as played any more.
    pub fn turn_end(&mut self)
        ensures
            final(self).played() == Seq::<ids::CardId>::empty(),
            *final(self) == (Player { played_this_turn: final(self).played_this_turn, ..*old(self) }),
    {
        self.played_this_turn = Vec::new();
    }

    /// Counts the classes of the party and of the leader.
    pub fn count_hero_types(&self, hero_types: &mut HeroTypeCounter)
        requires
            self.party.well_formed(),
            old(hero_types).well_formed(),
            forall|t: HeroType| old(hero_types).count(t) + self.party@.len() + 1 <= u32::MAX,
        ensures
            final(hero_types).well_formed(),
            forall|t: HeroType| #[trigger] final(hero_types).count(t) == old(hero_types).count(t)
                + count_of_type(self.party@, t) + if self.leader.card_type.spec_hero_type() == Some(t) { 1nat } else { 0nat },
            final(hero_types).leader_type == old(hero_types).leader_type,
    {
        self.party.count_hero_types(hero_types);
        proof {
            assert forall|t: HeroType| hero_types.count(t) < u32::MAX by {
                crate::state::deck::lemma_count_of_type_bounded(self.party@, t);
            }
        }
        hero_types.maybe_add_hero_type(self.leader.get_unmodified_hero_type());
    }

    /// Adds the classes of the party and of the leader to the list, each class once.
    pub fn collect_hero_types(&self, hero_types: &mut Vec<HeroType>)
        requires
            self.party.well_formed(),
            self.leader.card_type is PartyLeader,
            old(hero_types)@.no_duplicates(),
        ensures
            final(hero_types)@.no_duplicates(),
            forall|t: HeroType| #[trigger] final(hero_types)@.contains(t) == (old(hero_types)@.contains(t)
                || has_type(self.party@, t) || self.leader.card_type == SlayCardSpec::PartyLeader(t)),
    {
        self.party.collect_hero_types(hero_types);
        let leader_type = match self.leader.card_type {
            SlayCardSpec::PartyLeader(t) => t,
            _ => {
                proof { assert(false); }
                HeroType::Bard
            },
        };
        crate::state::deck::insert_hero_type(hero_types, leader_type);
    }

    /// The classes of the party and of the leader, each once.
    pub fn hero_types(&self) -> (r: Vec<HeroType>)
        requires
            self.party.well_formed(),
            self.leader.card_type is PartyLeader,
        ensures
            r@.no_duplicates(),
            forall|t: HeroType| #[trigger] r@.contains(t) == (has_type(self.party@, t) || self.leader.card_type == SlayCardSpec::PartyLeader(t)),
    {
        let mut hero_types: Vec<HeroType> = Vec::new();
        self.collect_hero_types(&mut hero_types);
        hero_types
    }

    /// Whether the leader or a stack of the party is of the class.
    pub fn has_hero_type(&self, hero_type: &HeroType) -> (r: bool)
        requires
            self.party.well_formed(),
            self.leader.card_type is PartyLeader,
        ensures
            r == (self.leader.card_type == SlayCardSpec::PartyLeader(*hero_type) || has_type(self.party@, *hero_type)),
    {
        let leader_type = match self.leader.card_type {
            SlayCardSpec::PartyLeader(t) => t,
            _ => {
                proof { assert(false); }
                HeroType::Bard
            },
        };
        leader_type == *hero_type || self.party.contains_hero_type(hero_type)
    }

    /// Takes the first of the player's tasks out of the queue.
    pub fn take_current_task(&mut self) -> (r: Option<PlayerTask>)
        ensures
            old(self).tasks.queue().len() == 0 ==> r is None && final(self).tasks.queue() == old(self).tasks.queue(),
            old(self).tasks.queue().len() > 0 ==> r == Some(old(self).tasks.queue()[0])
                && final(self).tasks.queue() == old(self).tasks.queue().drop_first(),
            !final(self).tasks.has_current(),
            !final(self).tasks.has_prepended(),
            final(self).tasks.well_formed() == old(self).tasks.well_formed(),
            final(self).tasks.player_values() == old(self).tasks.player_values(),
            final(self).tasks.card_values() == old(self).tasks.card_values(),
            *final(self) == (Player { tasks: final(self).tasks, ..*old(self) }),
    {
        self.tasks.take_current_task()
    }

    /// Drops the status effects that have run out at the given turn.
    pub fn clear_expired_modifiers(&mut self, turn: &Turn)
        ensures
            final(self).temporary_buffs@ == active_during(old(self).temporary_buffs@, *turn),
            *final(self) == (Player { temporary_buffs: final(self).temporary_buffs, ..*old(self) }),
    {
        self.temporary_buffs.clear_expired_modifiers(turn);
    }

    /// The action points left in this turn.
    pub fn get_remaining_action_points(&self) -> (r: u32)
        ensures
            r == self.action_points(),
    {
        self.remaining_action_points
    }

    /// The action points the player gets at the start of a turn.
    pub fn calculate_total_action_points(&self) -> (r: u32)
        requires
            self.slain_are_monsters(),
            total_action_points(self.slain_monsters@) <= u32::MAX,
        ensures
            r == total_action_points(self.slain_monsters@),
    {
        let tops = self.slain_monsters.tops();
        let mut total: u32 = 3;
        let mut i: usize = 0;
        while i < tops.len()
            invariant
                i <= tops@.len(),
                tops@ == self.slain_monsters@.map_values(|s: Stack| s.top),
                self.slain_are_monsters(),
                total_action_points(self.slain_monsters@) <= u32::MAX,
                total == total_action_points(self.slain_monsters@.take(i as int)),
            decreases tops@.len() - i,
        {
            proof {
                assert(self.slain_monsters@.take(i + 1).drop_last() =~= self.slain_monsters@.take(i as int));
                lemma_slain_action_points_prefix(self.slain_monsters@, i + 1);
                assert(tops@[i as int] == self.slain_monsters@[i as int].top);
                assert(self.slain_monsters@[i as int].top.card_type is MonsterCard);
            }
            let extra = match tops[i].card_type {
                SlayCardSpec::MonsterCard(m) => monster_extra_action_points(m),
                _ => {
                    proof { assert(false); }
                    0
                },
            };
            total = total + extra;
            i = i + 1;
        }
        assert(self.slain_monsters@.take(i as int) =~= self.slain_monsters@);
        total
    }

    /// The player as seen from a perspective: their action points and the decks it can see.
    pub fn to_perspective(&self, game: &Game, perspective: &Perspective) -> (r: PlayerPerspective)
        requires
            self.player_index < game.players@.len(),
            self.slain_are_monsters(),
            total_action_points(self.slain_monsters@) <= u32::MAX,
            self.hand.spec.visibility == VisibilitySpec::spec_summary(),
            self.party.spec.visibility == VisibilitySpec::spec_visible(),
            self.slain_monsters.spec.visibility == VisibilitySpec::spec_visible(),
        ensures
            r.player_index == self.player_index,
            r.remaining_action_points == self.action_points(),
            r.total_action_points == total_action_points(self.slain_monsters@),
            r.decks@.len() == 3,
            r.decks@[0].path == self.hand.spec.path && r.decks@[0].count == self.hand@.len(),
            r.decks@[1].path == self.party.spec.path && r.decks@[1].count == self.party@.len(),
            r.decks@[2].path == self.slain_monsters.spec.path && r.decks@[2].count == self.slain_monsters@.len(),
            r.decks@[0].stacks.is_some() == (*perspective == Perspective::Owner),
            r.decks@[0].stacks matches Some(stacks) ==> self.hand.spec_to_stack_perspectives(*game, Some(self.player_index), stacks@),
            r.decks@[1].stacks.is_some() && self.party.spec_to_stack_perspectives(*game, Some(self.player_index), r.decks@[1].stacks.unwrap()@),
            r.decks@[2].stacks.is_some() && self.slain_monsters.spec_to_stack_perspectives(*game, Some(self.player_index), r.decks@[2].stacks.unwrap()@),
    {
        let mut decks: Vec<DeckPerspective> = Vec::new();
        decks.push(self.hand.to_perspective(game, Some(self.player_index), perspective));
        decks.push(self.party.to_perspective(game, Some(self.player_index), perspective));
        decks.push(self.slain_monsters.to_perspective(game, Some(self.player_index), perspective));
        PlayerPerspective {
            player_index: self.player_index,
            remaining_action_points: self.get_remaining_action_points(),
            total_action_points: self.calculate_total_action_points(),
            decks,
        }
    }
}

/// The number of action points a monster's effects grant beyond the usual ones.
pub fn monster_extra_action_points(monster: Monster) -> (r: u32)
    ensures
        r == extra_action_points(monster_spec_view(monster).modifiers),
{
    let spec = monster.create_spec();
    let mut count: u32 = 0;
    let mut i: usize = 0;
    while i < spec.modifiers.len()
        invariant
            i <= spec.modifiers@.len(),
            spec.modifiers@ == monster_spec_view(monster).modifiers,
            count == extra_action_points(spec.modifiers@.take(i as int)),
            count <= i,
        decreases spec.modifiers@.len() - i,
    {
        assert(spec.modifiers@.take(i + 1).drop_last() =~= spec.modifiers@.take(i as int));
        if spec.modifiers[i] == PlayerStatusEffect::ExtraActionPoint {
            count = count + 1;
        }
        i = i + 1;
    }
    assert(spec.modifiers@.take(i as int) =~= spec.modifiers@);
    count
}

/// No monster grants more than one extra action point.
pub proof fn lemma_monster_action_points_bounded(card: Card)
    ensures
        monster_action_points(card) <= 1,
{
    reveal_with_fuel(extra_action_points, 3);
    match card.card_type {
        SlayCardSpec::MonsterCard(m) => {
            match m {
                Monster::AnuranCauldron => {},
                Monster::TitanWyvern => {},
                Monster::DarkDragonKing => {},
                Monster::AbyssQueen => {},
                Monster::RexMajor => {},
                Monster::CorruptedSabretooth => {},
                Monster::CrownedSerpent => {},
                Monster::WarwornOwlbear => {},
                Monster::Dracos => {},
                Monster::Malammoth => {},
                Monster::Bloodwing => {},
                Monster::ArcticAries => {},
                Monster::MegaSlime => {},
                Monster::Orthus => {},
                Monster::Terratuga => {},
            }
        },
        _ => {},
    }
}

/// Slain monsters grant at most one extra action point each.
pub proof fn lemma_slain_action_points_bounded(stacks: Seq<Stack>)
    ensures
        slain_action_points(stacks) <= stacks.len(),
    decreases stacks.len(),
{
    if stacks.len() > 0 {
        lemma_slain_action_points_bounded(stacks.drop_last());
        lemma_monster_action_points_bounded(stacks.last().top);
    }
}

/// The action points of a prefix do not exceed those of the whole list.
pub proof fn lemma_slain_action_points_prefix(stacks: Seq<Stack>, n: int)
    requires
        0 <= n <= stacks.len(),
    ensures
        slain_action_points(stacks.take(n)) <= slain_action_points(stacks),
    decreases stacks.len(),
{
    if n < stacks.len() {
        assert(stacks.drop_last().take(n) =~= stacks.take(n));
        lemma_slain_action_points_prefix(stacks.drop_last(), n);
    } else {
        assert(stacks.take(n) =~= stacks);
    }
}

/// A player as another player (or a spectator) sees them.
#[derive(Debug, Clone)]
pub struct PlayerPerspective {
    pub remaining_action_points: u32,
    pub total_action_points: u32,
    pub decks: Vec<DeckPerspective>,
    pub player_index: usize,
}

impl PlayerPerspective {
    /// The player's name.
    pub fn name<'a>(&self, statics: &'a GameStaticInformation) -> (r: &'a String)
        requires
            self.player_index < statics.players@.len(),
        ensures
            *r == statics.players@[self.player_index as int].name,
    {
        &statics.players[self.player_index].name
    }

    /// Whether this is the player looking at the game.
    pub fn is_me(&self, statics: &GameStaticInformation) -> (r: bool)
        ensures
            r == (self.player_index == statics.player_index),
    {
        self.player_index == statics.player_index
    }

    /// Whether it is this player's turn.
    pub fn is_active(&self, game: &GamePerspective) -> (r: bool)
        ensures
            r == (self.player_index == game.turn.active_player()),
    {
        self.player_index == game.turn.active_player_index()
    }

    /// The options, among those offered, that show on this player.
    pub fn choices(&self, choices: &Option<ChoicesPerspective>) -> (r: Vec<ChoicePerspective>)
        ensures
            choices is None ==> r@ == Seq::<ChoicePerspective>::empty(),
            choices is Some ==> r@ == crate::choices::filtered_options(choices.unwrap().options@, crate::choices::OptionFilter::At(DisplayPath::Player(self.player_index))),
    {
        match choices {
            Some(choices) => choices.represented_by(&DisplayPath::Player(self.player_index)),
            None => Vec::new(),
        }
    }
}

} // verus!
