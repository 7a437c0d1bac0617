use vstd::prelude::*;

use crate::choices::{ChoicePerspective, Choices, ChoicesPerspective, ChoicesType, TasksChoice};
use crate::deadlines;
use crate::game_context::GameBookKeeping;
use crate::ids;
use crate::showdown::completion::CompletionTracker;
use crate::showdown::consequences::{tasks_for, Condition, RollConsequences};
use crate::showdown::current_showdown::ShowDown;
use crate::showdown::roll::Roll;
use crate::showdown::roll_choices::{
    create_modify_roll_choice, create_set_completion_done, create_set_completion_until_modification,
    is_completion_choice, is_modify_roll_choice,
};
use crate::showdown::completion::Completion;
use crate::showdown::roll_modification::{ModificationPath, RollModification};
use crate::specs::cards::SlayCardSpec;
use crate::specs::modifier::ModifierKinds;
use crate::state::game::{Game, GameStaticInformation};
use crate::state::player::Player;
use crate::state::stack::{Card, Stack};
use crate::status_effects::effect_entry::{player_roll_modification, PlayerStatusEffectEntry};
use crate::state::status_effects::entries_of;

verus! {

/// Why a player rolls.
#[derive(Debug, Clone, Copy, PartialEq, Eq, Structural)]
pub enum RollReason {
    UseHeroAbility(SlayCardSpec),
    AttackMonster(SlayCardSpec),
    Challenged,
    Challenging,
}

/// A roll in progress: who rolls, why, the dice, the modifications so far and what follows.
#[derive(Debug)]
pub struct RollState {
    pub roller_index: ids::PlayerIndex,
    pub reason: RollReason,
    pub consequences: RollConsequences,
    pub initial: Roll,
    pub history: Vec<RollModification>,
    pub completion_tracker: Option<CompletionTracker>,
}

/// A roll as the players see it.
#[derive(Debug, Clone)]
pub struct RollPerspective {
    pub roller_index: ids::PlayerIndex,
    pub reason: RollReason,
    pub win_condition: Condition,
    pub loss_condition: Option<Condition>,
    pub initial: Roll,
    pub history: Vec<RollModification>,
    pub completion_tracker: CompletionTracker,
}

/// The changes that a player's status effects make to a roll made for `reason`, in order.
pub open spec fn roll_buffs(entries: Seq<PlayerStatusEffectEntry>, reason: RollReason) -> Seq<RollModification> {
    entries.filter_map(|entry: PlayerStatusEffectEntry| player_roll_modification(entry, reason))
}

/// The changes that the roller's status effects make to a roll made for `reason`, in order.
pub fn create_roll_history(game: &Game, roller_index: ids::PlayerIndex, reason: RollReason) -> (r: Vec<RollModification>)
    requires
        roller_index < game.players@.len(),
    ensures
        r@ == roll_buffs(entries_of(game.players@[roller_index as int].temporary_buffs@), reason),
{
    let entries = game.players[roller_index].temporary_buffs.player_effects();
    let mut r: Vec<RollModification> = Vec::new();
    let mut i: usize = 0;
    while i < entries.len()
        invariant
            i <= entries@.len(),
            r@ == roll_buffs(entries@.take(i as int), reason),
        decreases entries@.len() - i,
    {
        proof {
            assert(entries@.take(i + 1).drop_last() =~= entries@.take(i as int));
            reveal_with_fuel(Seq::filter_map, 1);
        }
        let entry = entries[i];
        if let Some(modification) = entry.create_roll_modification(reason) {
            r.push(modification);
        }
        i = i + 1;
    }
    assert(entries@.take(i as int) =~= entries@);
    r
}

impl RollState {
    /// A roll of two fresh dice for the player, with the modifications their status effects bring.
    pub fn create(
        context: &mut GameBookKeeping,
        game: &Game,
        roller_index: ids::PlayerIndex,
        consequences: RollConsequences,
        reason: RollReason,
    ) -> (r: Self)
        requires
            roller_index < game.players@.len(),
        ensures
            r.roller_index == roller_index,
            r.reason == reason,
            r.consequences == consequences,
            1 <= r.initial.die1 <= 6,
            1 <= r.initial.die2 <= 6,
            r.history@ == roll_buffs(entries_of(game.players@[roller_index as int].temporary_buffs@), reason),
            r.completion_tracker is None,
            final(context).id_generator == old(context).id_generator,
    {
        RollState {
            roller_index,
            initial: Roll::create_from(&mut context.rng),
            history: create_roll_history(game, roller_index, reason),
            consequences,
            completion_tracker: None,
            reason,
        }
    }

    /// Adds a modification to the roll; players get a fresh deadline.
    pub fn add_modification(&mut self, modification: RollModification)
        requires
            old(self).completion_tracker is Some,
        ensures
            final(self).history@ == old(self).history@.push(modification),
            final(self).completion_tracker is Some,
            final(self).completion_tracker.unwrap().completions@ == old(self).completion_tracker.unwrap().completions@,
            final(self).completion_tracker.unwrap().timeline.duration_millis == deadlines::ROLL_DEADLINE_MILLIS,
            final(self).roller_index == old(self).roller_index,
            final(self).reason == old(self).reason,
            final(self).consequences == old(self).consequences,
            final(self).initial == old(self).initial,
    {
        let deadline = deadlines::get_roll_deadline();
        self.tracker_mut().timeline = deadline;
        self.history.push(modification);
    }

    /// Both dice and every modification, added up.
    pub fn calculate_roll_total(&self) -> (r: i32)
        requires
            self.initial.total_fits(self.history@),
        ensures
            r == self.initial.spec_total(self.history@),
    {
        self.initial.calculate_total(self.history.as_slice())
    }

    /// The roll as the players see it.
    pub fn to_perspective(&self) -> (r: RollPerspective)
        requires
            self.completion_tracker is Some,
        ensures
            r.roller_index == self.roller_index,
            r.reason == self.reason,
            r.win_condition == self.consequences.success.condition,
            r.loss_condition == match self.consequences.loss {
                Some(loss) => Some(loss.condition),
                None => None,
            },
            r.initial == self.initial,
            r.history@ == self.history@,
            r.completion_tracker.completions@ == self.completion_tracker.unwrap().completions@,
            r.completion_tracker.timeline == self.completion_tracker.unwrap().timeline,
    {
        let tracker = self.tracker();
        RollPerspective {
            roller_index: self.roller_index,
            reason: self.reason,
            win_condition: self.consequences.success.condition,
            loss_condition: match &self.consequences.loss {
                Some(loss) => Some(loss.condition),
                None => None,
            },
            initial: self.initial,
            history: self.history.clone(),
            completion_tracker: CompletionTracker { completions: tracker.completions.clone(), timeline: tracker.timeline },
        }
    }
}

impl ShowDown for RollState {
    open spec fn spec_tracker(&self) -> Option<CompletionTracker> {
        self.completion_tracker
    }

    fn tracker(&self) -> (r: &CompletionTracker) {
        self.completion_tracker.as_ref().unwrap()
    }

    fn tracker_mut(&mut self) -> (r: &mut CompletionTracker)
        ensures
            *final(self) == (RollState { completion_tracker: Some(*final(r)), ..*old(self) }),
    {
        match &mut self.completion_tracker {
            Some(tracker) => tracker,
            None => vstd::pervasive::unreached(),
        }
    }

    open spec fn offers_decision(&self, game: Game, player_index: ids::PlayerIndex, c: Choices) -> bool {
        is_modification_decision(
            c,
            game.players@[player_index as int].hand@,
            player_index,
            ChoicesType::ModifyRoll,
            self.spec_tracker().unwrap().timeline,
            seq![ModificationPath::Roll],
        )
    }

    fn create_choice_for(&self, context: &mut GameBookKeeping, game: &Game, player_index: ids::PlayerIndex) -> (r: Choices) {
        let default_choice = context.id_generator.generate();
        let timeline = self.tracker().timeline;
        let paths = vec![ModificationPath::Roll];
        assert(paths@ =~= seq![ModificationPath::Roll]);
        let ghost path_seq = paths@;
        let options = list_modification_choices(context, game, player_index, default_choice, paths);
        let r = Choices { choices_type: ChoicesType::ModifyRoll, default_choice: Some(default_choice), timeline, options };
        assert(is_modification_decision(r, game.players@[player_index as int].hand@, player_index, ChoicesType::ModifyRoll, timeline, path_seq));
        assert(self.offers_decision(*game, player_index, r));
        r
    }

    open spec fn finish_requires(&self, game: Game) -> bool {
        &&& self.roller_index < game.players@.len()
        &&& self.initial.total_fits(self.history@)
    }

    /// The roller gets the tasks that the roll's total brings, after everyone's choices are taken away.
    open spec fn resolved(&self, before: Game, after: Game) -> bool {
        after.gives_roll_tasks(before, self.roller_index, tasks_for(self.consequences, self.initial.spec_total(self.history@)))
    }

    fn finish(&mut self, context: &mut GameBookKeeping, game: &mut Game) {
        let roll_sum = self.calculate_roll_total();
        let roller_index = self.roller_index;
        self.consequences.apply_roll_sum(game, roll_sum, roller_index);
    }
}

/// Whether `c` is the decision offered to a player during a roll or a challenge: of the
/// given kind and period, with a default option that is to be done for good, then the option
/// to be done until the next modification, then, for each modifier card in the player's hand,
/// each of the paths and each amount on the card, the option to play it there.
pub open spec fn is_modification_decision(
    c: Choices,
    hand: Seq<Stack>,
    player_index: ids::PlayerIndex,
    choices_type: ChoicesType,
    timeline: crate::deadlines::Timeline,
    paths: Seq<ModificationPath>,
) -> bool {
    &&& c.choices_type == choices_type
    &&& c.timeline == timeline
    &&& c.default_choice is Some
    &&& c.options@.len() >= 2
    &&& is_completion_choice(c.options@[0], c.default_choice.unwrap(), Completion::AllDone)
    &&& is_completion_choice(c.options@[1], c.options@[1].choice_id, Completion::DoneUntilModification)
    &&& options_match(c.options@.skip(2), player_index, modification_options(hand.map_values(|s: Stack| s.top), paths))
}

/// The options to play a modifier card with the given kind, one per path and amount, in that order.
pub open spec fn path_options(card_id: ids::CardId, kind: ModifierKinds, paths: Seq<ModificationPath>) -> Seq<(ids::CardId, ModifierKinds, i32, ModificationPath)>
    decreases paths.len(),
{
    if paths.len() == 0 {
        Seq::empty()
    } else {
        path_options(card_id, kind, paths.drop_last()) + kind.spec_amounts().map_values(
            |amount: i32| (card_id, kind, amount, paths.last()),
        )
    }
}

/// The options to play the modifier cards among the given cards, card by card.
pub open spec fn modification_options(tops: Seq<Card>, paths: Seq<ModificationPath>) -> Seq<(ids::CardId, ModifierKinds, i32, ModificationPath)>
    decreases tops.len(),
{
    if tops.len() == 0 {
        Seq::empty()
    } else {
        modification_options(tops.drop_last(), paths) + match tops.last().card_type {
            SlayCardSpec::ModifierCard(kind) => path_options(tops.last().id, kind, paths),
            _ => Seq::empty(),
        }
    }
}

/// Whether the options are those to play modifier cards described by `expected`, in order.
pub open spec fn options_match(options: Seq<TasksChoice>, player_index: ids::PlayerIndex, expected: Seq<(ids::CardId, ModifierKinds, i32, ModificationPath)>) -> bool {
    &&& options.len() == expected.len()
    &&& forall|k: int| 0 <= k < options.len() ==> is_modify_roll_choice(
        #[trigger] options[k],
        player_index,
        expected[k].0,
        expected[k].1,
        expected[k].2,
        expected[k].3,
    )
}

proof fn lemma_options_match_append(
    a: Seq<TasksChoice>,
    b: Seq<TasksChoice>,
    player_index: ids::PlayerIndex,
    ea: Seq<(ids::CardId, ModifierKinds, i32, ModificationPath)>,
    eb: Seq<(ids::CardId, ModifierKinds, i32, ModificationPath)>,
)
    requires
        options_match(a, player_index, ea),
        options_match(b, player_index, eb),
    ensures
        options_match(a + b, player_index, ea + eb),
{
    assert forall|k: int| 0 <= k < (a + b).len() implies is_modify_roll_choice(
        #[trigger] (a + b)[k],
        player_index,
        (ea + eb)[k].0,
        (ea + eb)[k].1,
        (ea + eb)[k].2,
        (ea + eb)[k].3,
    ) by {
        if k < a.len() {
            assert((a + b)[k] == a[k]);
        } else {
            assert((a + b)[k] == b[k - a.len()]);
        }
    }
}

fn push_amount_options(
    options: &mut Vec<TasksChoice>,
    context: &mut GameBookKeeping,
    player_index: ids::PlayerIndex,
    card_id: ids::CardId,
    kind: ModifierKinds,
    path: ModificationPath,
)
    ensures
        final(options)@.len() >= old(options)@.len(),
        final(options)@.take(old(options)@.len() as int) == old(options)@,
        options_match(
            final(options)@.skip(old(options)@.len() as int),
            player_index,
            kind.spec_amounts().map_values(|amount: i32| (card_id, kind, amount, path)),
        ),
{
    let amounts = kind.list_amounts();
    let ghost start = options@.len();
    let ghost expected = kind.spec_amounts().map_values(|amount: i32| (card_id, kind, amount, path));
    let mut a: usize = 0;
    while a < amounts.len()
        invariant
            a <= amounts@.len(),
            amounts@ == kind.spec_amounts(),
            expected == kind.spec_amounts().map_values(|amount: i32| (card_id, kind, amount, path)),
            options@.len() == start + a,
            options@.take(start as int) == old(options)@,
            options_match(options@.skip(start as int), player_index, expected.take(a as int)),
        decreases amounts@.len() - a,
    {
        let choice = create_modify_roll_choice(context, player_index, card_id, &kind, amounts[a], &path);
        let ghost before = options@;
        options.push(choice);
        proof {
            assert(options@.take(start as int) =~= before.take(start as int));
            assert(options@.skip(start as int) =~= before.skip(start as int).push(choice));
            assert(expected.take(a + 1) =~= expected.take(a as int).push(expected[a as int]));
            assert(expected[a as int] == (card_id, kind, amounts@[a as int], path));
            assert(is_modify_roll_choice(options@.skip(start as int)[a as int], player_index, card_id, kind, amounts@[a as int], path));
        }
        a = a + 1;
    }
    assert(expected.take(a as int) =~= expected);
}

fn push_card_options(
    options: &mut Vec<TasksChoice>,
    context: &mut GameBookKeeping,
    player_index: ids::PlayerIndex,
    card_id: ids::CardId,
    kind: ModifierKinds,
    paths: &Vec<ModificationPath>,
)
    ensures
        final(options)@.len() >= old(options)@.len(),
        final(options)@.take(old(options)@.len() as int) == old(options)@,
        options_match(final(options)@.skip(old(options)@.len() as int), player_index, path_options(card_id, kind, paths@)),
{
    let ghost start = options@.len();
    let mut p: usize = 0;
    assert(options@.skip(start as int) =~= Seq::<TasksChoice>::empty());
    while p < paths.len()
        invariant
            p <= paths@.len(),
            options@.len() >= start,
            options@.take(start as int) == old(options)@,
            options_match(options@.skip(start as int), player_index, path_options(card_id, kind, paths@.take(p as int))),
        decreases paths@.len() - p,
    {
        let ghost before = options@;
        push_amount_options(options, context, player_index, card_id, kind, paths[p]);
        proof {
            let mid = before.len() as int;
            assert(options@.skip(start as int) =~= before.skip(start as int) + options@.skip(mid));
            assert(paths@.take(p + 1).drop_last() =~= paths@.take(p as int));
            lemma_options_match_append(
                before.skip(start as int),
                options@.skip(mid),
                player_index,
                path_options(card_id, kind, paths@.take(p as int)),
                kind.spec_amounts().map_values(|amount: i32| (card_id, kind, amount, paths@[p as int])),
            );
            assert(options@.take(start as int) =~= before.take(start as int));
        }
        p = p + 1;
    }
    assert(paths@.take(p as int) =~= paths@);
}

/// The options of a player during a showdown: to be done for good (with the default id),
/// to be done until the next modification (with a fresh id), then, for each modifier card
/// in their hand, each path and each amount on the card, to play the card on that path.
pub fn list_modification_choices(
    context: &mut GameBookKeeping,
    game: &Game,
    player_index: ids::PlayerIndex,
    default_choice: ids::ChoiceId,
    rolls: Vec<ModificationPath>,
) -> (r: Vec<TasksChoice>)
    requires
        player_index < game.players@.len(),
    ensures
        r@.len() >= 2,
        is_completion_choice(r@[0], default_choice, Completion::AllDone),
        r@[1].choice_id as int == (old(context).id_generator.last_id() + 1) % 0x1_0000_0000,
        is_completion_choice(r@[1], r@[1].choice_id, Completion::DoneUntilModification),
        options_match(
            r@.skip(2),
            player_index,
            modification_options(game.players@[player_index as int].hand@.map_values(|s: Stack| s.top), rolls@),
        ),
{
    let mut choices: Vec<TasksChoice> = Vec::new();
    choices.push(create_set_completion_done(default_choice));
    let until_id = context.id_generator.generate();
    choices.push(create_set_completion_until_modification(until_id));
    let tops = game.players[player_index].hand.tops();
    let mut i: usize = 0;
    assert(choices@.skip(2) =~= Seq::<TasksChoice>::empty());
    while i < tops.len()
        invariant
            i <= tops@.len(),
            choices@.len() >= 2,
            is_completion_choice(choices@[0], default_choice, Completion::AllDone),
            choices@[1].choice_id as int == (old(context).id_generator.last_id() + 1) % 0x1_0000_0000,
            is_completion_choice(choices@[1], choices@[1].choice_id, Completion::DoneUntilModification),
            options_match(choices@.skip(2), player_index, modification_options(tops@.take(i as int), rolls@)),
        decreases tops@.len() - i,
    {
        let card = tops[i];
        let ghost before = choices@;
        proof {
            assert(tops@.take(i + 1).drop_last() =~= tops@.take(i as int));
        }
        if let SlayCardSpec::ModifierCard(kind) = card.card_type {
            push_card_options(&mut choices, context, player_index, card.id, kind, &rolls);
            proof {
                let mid = before.len() as int;
                assert(choices@.skip(2) =~= before.skip(2) + choices@.skip(mid));
                lemma_options_match_append(
                    before.skip(2),
                    choices@.skip(mid),
                    player_index,
                    modification_options(tops@.take(i as int), rolls@),
                    path_options(card.id, kind, rolls@),
                );
                assert(choices@[0] == choices@.take(mid)[0]);
                assert(choices@[1] == choices@.take(mid)[1]);
            }
        } else {
            assert(modification_options(tops@.take(i + 1), rolls@) =~= modification_options(tops@.take(i as int), rolls@));
        }
        i = i + 1;
    }
    assert(tops@.take(i as int) =~= tops@);
    choices
}

impl RollPerspective {
    /// The name of the player who rolls.
    pub fn roller_name<'a>(&self, statics: &'a GameStaticInformation) -> (r: &'a String)
        requires
            self.roller_index < statics.players@.len(),
        ensures
            *r == statics.players@[self.roller_index as int].name,
    {
        &statics.players[self.roller_index].name
    }

    /// Whether the roll, as it stands, meets the condition to win.
    pub fn won(&self) -> (r: bool)
        requires
            self.initial.total_fits(self.history@),
        ensures
            r == self.win_condition.spec_applies_to(self.initial.spec_total(self.history@)),
    {
        self.win_condition.applies_to(self.calculate_roll_total())
    }

    /// Whether the roll, as it stands, meets the condition to lose, where there is one.
    pub fn lossed(&self) -> (r: Option<bool>)
        requires
            self.initial.total_fits(self.history@),
        ensures
            r == match self.loss_condition {
                Some(loss) => Some(loss.spec_applies_to(self.initial.spec_total(self.history@))),
                None => None,
            },
    {
        match &self.loss_condition {
            Some(loss) => Some(loss.applies_to(self.calculate_roll_total())),
            None => None,
        }
    }

    /// Both dice and every modification, added up.
    pub fn calculate_roll_total(&self) -> (r: i32)
        requires
            self.initial.total_fits(self.history@),
        ensures
            r == self.initial.spec_total(self.history@),
    {
        self.initial.calculate_total(self.history.as_slice())
    }

    /// The options, among those offered, that modify the roll.
    pub fn choices(&self, choices: &Option<ChoicesPerspective>) -> (r: Vec<ChoicePerspective>)
        ensures
            choices is None ==> r@ == Seq::<ChoicePerspective>::empty(),
            choices is Some ==> r@ == crate::choices::filtered_options(choices.unwrap().options@, crate::choices::OptionFilter::Roll),
    {
        match choices {
            Some(choices) => choices.keep_where(crate::choices::OptionFilter::Roll),
            None => Vec::new(),
        }
    }
}

} // verus!
