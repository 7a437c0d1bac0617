use vstd::prelude::*;

use rand::rngs::ThreadRng;

use crate::choices::{ChoicePerspective, Choices, ChoicesPerspective, ChoicesType, OptionFilter, filtered_options};
use crate::deadlines;
use crate::game_context::GameBookKeeping;
use crate::ids;
use crate::showdown::completion::CompletionTracker;
use crate::showdown::consequences::{tasks_for, RollConsequences};
use crate::showdown::current_showdown::ShowDown;
use crate::showdown::roll::{ChallengeReason, Roll};
use crate::showdown::roll_modification::{ModificationPath, RollModification};
use crate::showdown::roll_state::{is_modification_decision, list_modification_choices};
use crate::state::game::{Game, GameStaticInformation};

verus! {

/// One of the two rolls of a challenge.
#[derive(Debug, Clone)]
pub struct ChallengeRoll {
    pub player_index: ids::PlayerIndex,
    pub initial: Roll,
    pub history: Vec<RollModification>,
    pub path: ModificationPath,
}

/// A challenge in progress: the player who was challenged rolls against the challenger.
#[derive(Debug)]
pub struct ChallengeState {
    pub initiator: ChallengeRoll,
    pub challenger: ChallengeRoll,
    pub completion_tracker: Option<CompletionTracker>,
    pub reason: ChallengeReason,
    pub consequences: RollConsequences,
}

/// A challenge as the players see it.
#[derive(Debug, Clone)]
pub struct ChallengePerspective {
    pub initiator: ChallengeRoll,
    pub challenger: ChallengeRoll,
    pub completion_tracker: CompletionTracker,
    pub reason: ChallengeReason,
}

impl ChallengeRoll {
    /// Whether the total of this roll fits in an `i32`.
    pub open spec fn fits(self) -> bool {
        self.initial.total_fits(self.history@)
    }

    pub open spec fn spec_total(self) -> int {
        self.initial.spec_total(self.history@)
    }

    /// Two fresh dice for the player, with no modification yet.
    pub fn new(rng: &mut ThreadRng, player_index: ids::PlayerIndex, path: ModificationPath) -> (r: Self)
        ensures
            r.player_index == player_index,
            r.path == path,
            r.history@ == Seq::<RollModification>::empty(),
            1 <= r.initial.die1 <= 6,
            1 <= r.initial.die2 <= 6,
    {
        ChallengeRoll { initial: Roll::create_from(rng), history: Vec::new(), path, player_index }
    }

    /// A copy of the roll.
    pub fn copy(&self) -> (r: Self)
        ensures
            r.player_index == self.player_index,
            r.initial == self.initial,
            r.history@ == self.history@,
            r.path == self.path,
    {
        ChallengeRoll { player_index: self.player_index, initial: self.initial, history: self.history.clone(), path: self.path }
    }

    /// Both dice and every modification, added up.
    pub fn calculate_roll_total(&self) -> (r: i32)
        requires
            self.fits(),
        ensures
            r == self.spec_total(),
    {
        self.initial.calculate_total(self.history.as_slice())
    }

    /// The name of the player who rolls.
    pub fn roller_name(&self, statics: &GameStaticInformation) -> (r: String)
        requires
            self.player_index < statics.players@.len(),
        ensures
            r@ == statics.players@[self.player_index as int].name@,
    {
        statics.players[self.player_index].name.clone()
    }

    /// The options, among those offered, that modify this roll.
    pub fn choices(&self, choices: &Option<ChoicesPerspective>) -> (r: Vec<ChoicePerspective>)
        ensures
            choices is None ==> r@ == Seq::<ChoicePerspective>::empty(),
            choices is Some ==> r@ == filtered_options(choices.unwrap().options@, OptionFilter::ChallengeRoll(self.path)),
    {
        match choices {
            Some(choices) => choices.keep_where(OptionFilter::ChallengeRoll(self.path)),
            None => Vec::new(),
        }
    }
}

impl ChallengeState {
    /// Whether the difference of the two rolls, and each of them, fits in an `i32`.
    pub open spec fn fits(self) -> bool {
        &&& self.initiator.fits()
        &&& self.challenger.fits()
        &&& i32::MIN <= self.initiator.spec_total() - self.challenger.spec_total() <= i32::MAX
    }

    /// The initiator's total minus the challenger's.
    pub fn calculate_roll_total(&self) -> (r: i32)
        requires
            self.fits(),
        ensures
            r == self.initiator.spec_total() - self.challenger.spec_total(),
    {
        self.initiator.calculate_roll_total() - self.challenger.calculate_roll_total()
    }

    /// A challenge of `player_index` by `challenger_index`, each with two fresh dice.
    pub fn new(
        rng: &mut ThreadRng,
        player_index: ids::PlayerIndex,
        challenger_index: ids::PlayerIndex,
        consequences: RollConsequences,
        reason: ChallengeReason,
    ) -> (r: Self)
        ensures
            r.initiator.player_index == player_index,
            r.initiator.path == ModificationPath::Initiator,
            r.initiator.history@ == Seq::<RollModification>::empty(),
            r.challenger.player_index == challenger_index,
            r.challenger.path == ModificationPath::Challenger,
            r.challenger.history@ == Seq::<RollModification>::empty(),
            r.completion_tracker is None,
            r.consequences == consequences,
            r.reason == reason,
            r.fits(),
    {
        let initiator = ChallengeRoll::new(rng, player_index, ModificationPath::Initiator);
        let challenger = ChallengeRoll::new(rng, challenger_index, ModificationPath::Challenger);
        let r = ChallengeState { initiator, challenger, completion_tracker: None, consequences, reason };
        assert(crate::showdown::roll_modification::total_amount(Seq::<RollModification>::empty()) == 0);
        assert(Seq::<RollModification>::empty().take(0) =~= Seq::<RollModification>::empty());
        r
    }

    /// Adds a modification to one of the two rolls; players get a fresh deadline.
    pub fn add_modification(&mut self, modification_path: ModificationPath, modification: RollModification)
        requires
            modification_path != ModificationPath::Roll,
            old(self).completion_tracker is Some,
        ensures
            modification_path == ModificationPath::Challenger ==> final(self).challenger.history@ == old(self).challenger.history@.push(modification)
                && final(self).initiator == old(self).initiator,
            modification_path == ModificationPath::Initiator ==> final(self).initiator.history@ == old(self).initiator.history@.push(modification)
                && final(self).challenger == old(self).challenger,
            final(self).initiator.player_index == old(self).initiator.player_index,
            final(self).initiator.initial == old(self).initiator.initial,
            final(self).challenger.player_index == old(self).challenger.player_index,
            final(self).challenger.initial == old(self).challenger.initial,
            final(self).completion_tracker is Some,
            final(self).completion_tracker.unwrap().completions@ == old(self).completion_tracker.unwrap().completions@,
            final(self).completion_tracker.unwrap().timeline.duration_millis == deadlines::CHALLENGE_DEADLINE_MILLIS,
            final(self).consequences == old(self).consequences,
            final(self).reason == old(self).reason,
    {
        let deadline = deadlines::get_challenge_deadline();
        self.tracker_mut().timeline = deadline;
        match modification_path {
            ModificationPath::Roll => {},
            ModificationPath::Challenger => {
                self.challenger.history.push(modification);
            },
            ModificationPath::Initiator => {
                self.initiator.history.push(modification);
            },
        }
    }

    /// The challenge as the players see it.
    pub fn to_perspective(&self) -> (r: ChallengePerspective)
        requires
            self.completion_tracker is Some,
        ensures
            r.initiator.player_index == self.initiator.player_index,
            r.initiator.initial == self.initiator.initial,
            r.initiator.history@ == self.initiator.history@,
            r.initiator.path == self.initiator.path,
            r.challenger.player_index == self.challenger.player_index,
            r.challenger.initial == self.challenger.initial,
            r.challenger.history@ == self.challenger.history@,
            r.challenger.path == self.challenger.path,
            r.completion_tracker.completions@ == self.completion_tracker.unwrap().completions@,
            r.completion_tracker.timeline == self.completion_tracker.unwrap().timeline,
            r.reason == self.reason,
    {
        let tracker = self.tracker();
        ChallengePerspective {
            initiator: self.initiator.copy(),
            challenger: self.challenger.copy(),
            completion_tracker: CompletionTracker { completions: tracker.completions.clone(), timeline: tracker.timeline },
            reason: self.reason,
        }
    }
}

impl ShowDown for ChallengeState {
    open spec fn spec_tracker(&self) -> Option<CompletionTracker> {
        self.completion_tracker
    }

    fn tracker(&self) -> (r: &CompletionTracker) {
        self.completion_tracker.as_ref().unwrap()
    }

    fn tracker_mut(&mut self) -> (r: &mut CompletionTracker)
        ensures
            *final(self) == (ChallengeState { completion_tracker: Some(*final(r)), ..*old(self) }),
    {
        match &mut self.completion_tracker {
            Some(tracker) => tracker,
            None => vstd::pervasive::unreached(),
        }
    }

    open spec fn offers_decision(&self, game: Game, player_index: ids::PlayerIndex, c: Choices) -> bool {
        is_modification_decision(
            c,
            game.players@[player_index as int].hand@,
            player_index,
            ChoicesType::ModifyChallenge,
            self.spec_tracker().unwrap().timeline,
            seq![ModificationPath::Challenger, ModificationPath::Initiator],
        )
    }

    fn create_choice_for(&self, context: &mut GameBookKeeping, game: &Game, player_index: ids::PlayerIndex) -> (r: Choices) {
        let default_choice = context.id_generator.generate();
        let timeline = self.tracker().timeline;
        let paths = vec![ModificationPath::Challenger, ModificationPath::Initiator];
        assert(paths@ =~= seq![ModificationPath::Challenger, ModificationPath::Initiator]);
        let ghost path_seq = paths@;
        let options = list_modification_choices(context, game, player_index, default_choice, paths);
        let r = Choices { choices_type: ChoicesType::ModifyChallenge, default_choice: Some(default_choice), timeline, options };
        assert(is_modification_decision(r, game.players@[player_index as int].hand@, player_index, ChoicesType::ModifyChallenge, timeline, path_seq));
        assert(self.offers_decision(*game, player_index, r));
        r
    }

    open spec fn finish_requires(&self, game: Game) -> bool {
        &&& self.initiator.player_index < game.players@.len()
        &&& self.fits()
    }

    /// The initiator gets the tasks that the difference of the two totals brings, after
    /// everyone's choices are taken away.
    open spec fn resolved(&self, before: Game, after: Game) -> bool {
        after.gives_roll_tasks(
            before,
            self.initiator.player_index,
            tasks_for(self.consequences, self.initiator.spec_total() - self.challenger.spec_total()),
        )
    }

    fn finish(&mut self, _context: &mut GameBookKeeping, game: &mut Game) {
        let roll_sum = self.calculate_roll_total();
        let initiator_index = self.initiator.player_index;
        self.consequences.apply_roll_sum(game, roll_sum, initiator_index);
    }
}

impl ChallengePerspective {
    pub open spec fn fits(self) -> bool {
        &&& self.initiator.fits()
        &&& self.challenger.fits()
        &&& i32::MIN <= self.initiator.spec_total() - self.challenger.spec_total() <= i32::MAX
    }

    /// The initiator's total minus the challenger's.
    pub fn calculate_roll_total(&self) -> (r: i32)
        requires
            self.fits(),
        ensures
            r == self.initiator.spec_total() - self.challenger.spec_total(),
    {
        self.initiator.calculate_roll_total() - self.challenger.calculate_roll_total()
    }

    /// Whether the challenger wins, as the rolls stand: when the initiator does not roll higher.
    pub fn is_challenger_victories(&self) -> (r: bool)
        requires
            self.fits(),
        ensures
            r == (self.initiator.spec_total() <= self.challenger.spec_total()),
    {
        self.calculate_roll_total() <= 0
    }

    /// The options, among those offered, that modify either roll.
    pub fn choices(&self, choices: &Option<ChoicesPerspective>) -> (r: Vec<ChoicePerspective>)
        ensures
            choices is None ==> r@ == Seq::<ChoicePerspective>::empty(),
            choices is Some ==> r@ == filtered_options(choices.unwrap().options@, OptionFilter::Challenge),
    {
        match choices {
            Some(choices) => choices.keep_where(OptionFilter::Challenge),
            None => Vec::new(),
        }
    }
}

} // verus!
