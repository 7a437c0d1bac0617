use vstd::prelude::*;

use rand::rngs::ThreadRng;

use crate::choices::{ChoicePerspective, Choices, ChoicesPerspective, ChoicesType, OptionFilter, TasksChoice, filtered_options};
use crate::errors::{SlayError, SlayResult};
use crate::game_context::GameBookKeeping;
use crate::ids;
use crate::showdown::challenge::ChallengeState;
use crate::showdown::completion::{Completion, CompletionTracker};
use crate::showdown::consequences::{tasks_for, RollConsequences};
use crate::showdown::current_showdown::ShowDown;
use crate::showdown::roll::ChallengeReason;
use crate::showdown::roll_choices::{create_challenge_choice, create_set_completion_done, is_challenge_choice, is_completion_choice};
use crate::showdown::roll_modification::ModificationPath;
use crate::specification::CardType;
use crate::specs::initialization::card_spec_view;
use crate::state::game::Game;
use crate::state::stack::{Card, Stack};

verus! {

/// The moment when the other players may challenge a card that a player plays.
#[derive(Debug)]
pub struct OfferChallengesState {
    pub player_index: ids::PlayerIndex,
    pub reason: ChallengeReason,
    pub completion_tracker: Option<CompletionTracker>,
    pub consequences: RollConsequences,
}

/// An offer to challenge as the players see it.
#[derive(Debug, Clone)]
pub struct OfferChallengesPerspective {
    pub player_index: ids::PlayerIndex,
    pub reason: ChallengeReason,
    pub completion_tracker: CompletionTracker,
}

impl OfferChallengesPerspective {
    /// The options, among those offered, that challenge.
    pub fn choices(&self, choices: &Option<ChoicesPerspective>) -> (r: Vec<ChoicePerspective>)
        ensures
            choices is None ==> r@ == Seq::<ChoicePerspective>::empty(),
            choices is Some ==> r@ == filtered_options(choices.unwrap().options@, OptionFilter::Offer),
    {
        match choices {
            Some(choices) => choices.keep_where(OptionFilter::Offer),
            None => Vec::new(),
        }
    }
}

/// Whether the card is a challenge card.
pub open spec fn is_challenge_card(card: Card) -> bool {
    card_spec_view(card.card_type).card_type is Challenge
}

/// Whether `options` are those offered to a player while a card may be challenged: first to
/// let the card be, with the default id; then, where the player holds a challenge card, to
/// challenge with the first one in their hand.
pub open spec fn is_offer_options(options: Seq<TasksChoice>, hand: Seq<Stack>, player_index: ids::PlayerIndex, default_choice: ids::ChoiceId) -> bool {
    &&& options.len() >= 1
    &&& is_completion_choice(options[0], default_choice, Completion::AllDone)
    &&& (forall|i: int| 0 <= i < hand.len() ==> !is_challenge_card(#[trigger] hand[i].top)) ==> options.len() == 1
    &&& forall|i: int| 0 <= i < hand.len() && is_challenge_card(#[trigger] hand[i].top)
        && (forall|j: int| 0 <= j < i ==> !is_challenge_card(hand[j].top)) ==> {
            &&& options.len() == 2
            &&& is_challenge_choice(options[1], player_index, options[1].choice_id, hand[i].top)
        }
}

impl OfferChallengesState {
    pub fn new(player_index: ids::PlayerIndex, consequences: RollConsequences, reason: ChallengeReason) -> (r: Self)
        ensures
            r.player_index == player_index,
            r.completion_tracker is None,
            r.consequences == consequences,
            r.reason == reason,
    {
        OfferChallengesState { player_index, completion_tracker: None, consequences, reason }
    }

    /// The offer as the players see it.
    pub fn to_perspective(&self) -> (r: OfferChallengesPerspective)
        requires
            self.completion_tracker is Some,
        ensures
            r.player_index == self.player_index,
            r.completion_tracker.completions@ == self.completion_tracker.unwrap().completions@,
            r.completion_tracker.timeline == self.completion_tracker.unwrap().timeline,
            r.reason == self.reason,
    {
        let tracker = self.tracker();
        OfferChallengesPerspective {
            player_index: self.player_index,
            completion_tracker: CompletionTracker { completions: tracker.completions.clone(), timeline: tracker.timeline },
            reason: self.reason,
        }
    }

    /// The options of a player: to let the card be (with the default id), and, where they
    /// hold a challenge card, to challenge with the first one in their hand (with a fresh id).
    pub fn list_challenge_choices(
        &self,
        context: &mut GameBookKeeping,
        game: &Game,
        challenging_player_index: ids::PlayerIndex,
        default_choice: u32,
    ) -> (r: Vec<TasksChoice>)
        requires
            challenging_player_index < game.players@.len(),
        ensures
            is_offer_options(r@, game.players@[challenging_player_index as int].hand@, challenging_player_index, default_choice),
    {
        let mut ret: Vec<TasksChoice> = Vec::new();
        ret.push(create_set_completion_done(default_choice));
        let tops = game.players[challenging_player_index].hand.tops();
        let ghost hand = game.players@[challenging_player_index as int].hand@;
        let mut i: usize = 0;
        while i < tops.len() && !tops[i].is_challenge()
            invariant
                i <= tops@.len(),
                tops@ == hand.map_values(|s: Stack| s.top),
                forall|j: int| 0 <= j < i ==> !is_challenge_card(#[trigger] hand[j].top),
            decreases tops@.len() - i,
        {
            assert(tops@[i as int] == hand[i as int].top);
            i = i + 1;
        }
        if i < tops.len() {
            let id = context.id_generator.generate();
            let choice = create_challenge_choice(challenging_player_index, id, &tops[i]);
            ret.push(choice);
            proof {
                assert(tops@[i as int] == hand[i as int].top);
                assert(is_challenge_card(hand[i as int].top));
                assert(ret@[1] == choice);
                assert(is_challenge_choice(ret@[1], challenging_player_index, ret@[1].choice_id, hand[i as int].top));
                assert forall|k: int| 0 <= k < hand.len() && is_challenge_card(#[trigger] hand[k].top)
                    && (forall|j: int| 0 <= j < k ==> !is_challenge_card(hand[j].top)) implies k == i by {
                    if k < i {
                    } else if k > i {
                        assert(!is_challenge_card(hand[i as int].top));
                    }
                }
            }
        }
        ret
    }

    /// The challenge that follows when a player challenges this offer.
    pub fn to_challenge(&self, rng: &mut ThreadRng, game: &Game, challenger_index: ids::PlayerIndex) -> (r: SlayResult<ChallengeState>)
        ensures
            r is Ok,
            r.unwrap().initiator.player_index == self.player_index,
            r.unwrap().challenger.player_index == challenger_index,
            r.unwrap().reason == self.reason,
            r.unwrap().completion_tracker is None,
            r.unwrap().consequences.success.condition == self.consequences.success.condition,
            r.unwrap().consequences.success.tasks@ == self.consequences.success.tasks@,
            r.unwrap().consequences.loss is Some == self.consequences.loss is Some,
            self.consequences.loss is Some ==> r.unwrap().consequences.loss.unwrap().condition == self.consequences.loss.unwrap().condition
                && r.unwrap().consequences.loss.unwrap().tasks@ == self.consequences.loss.unwrap().tasks@,
    {
        Ok(ChallengeState::new(rng, self.player_index, challenger_index, self.consequences.copy(), self.reason))
    }
}

impl ShowDown for OfferChallengesState {
    open spec fn spec_tracker(&self) -> Option<CompletionTracker> {
        self.completion_tracker
    }

    fn tracker(&self) -> (r: &CompletionTracker) {
        self.completion_tracker.as_ref().unwrap()
    }

    fn tracker_mut(&mut self) -> (r: &mut CompletionTracker)
        ensures
            *final(self) == (OfferChallengesState { completion_tracker: Some(*final(r)), ..*old(self) }),
    {
        match &mut self.completion_tracker {
            Some(tracker) => tracker,
            None => vstd::pervasive::unreached(),
        }
    }

    open spec fn offers_decision(&self, game: Game, player_index: ids::PlayerIndex, c: Choices) -> bool {
        &&& c.choices_type == ChoicesType::OfferChallenges
        &&& c.timeline == self.spec_tracker().unwrap().timeline
        &&& c.default_choice is Some
        &&& is_offer_options(c.options@, game.players@[player_index as int].hand@, player_index, c.default_choice.unwrap())
    }

    fn create_choice_for(&self, context: &mut GameBookKeeping, game: &Game, player_index: ids::PlayerIndex) -> (r: Choices) {
        let default_choice = context.id_generator.generate();
        let timeline = self.tracker().timeline;
        let options = self.list_challenge_choices(context, game, player_index, default_choice);
        let ghost listed = options@;
        let r = Choices { choices_type: ChoicesType::OfferChallenges, default_choice: Some(default_choice), timeline, options };
        assert(r.options@ == listed);
        assert(self.offers_decision(*game, player_index, r));
        r
    }

    open spec fn finish_requires(&self, game: Game) -> bool {
        self.player_index < game.players@.len()
    }

    /// Nobody challenged: the player gets the tasks that a roll of 1 brings, after everyone's
    /// choices are taken away.
    open spec fn resolved(&self, before: Game, after: Game) -> bool {
        after.gives_roll_tasks(before, self.player_index, tasks_for(self.consequences, 1))
    }

    fn finish(&mut self, context: &mut GameBookKeeping, game: &mut Game) {
        let player_index = self.player_index;
        self.consequences.proceed(context, game, player_index);
    }
}

} // verus!
