use vstd::prelude::*;

use crate::choices::Choices;
use crate::errors::{SlayError, SlayResult};
use crate::game_context::GameBookKeeping;
use crate::ids;
use crate::showdown::challenge::ChallengeState;
use crate::showdown::completion::{CompletionTracker, RollCompletion};
use crate::showdown::offer::OfferChallengesState;
use crate::showdown::roll_modification::{ModificationPath, RollModification};
use crate::showdown::roll_state::RollState;
use crate::state::game::Game;
use crate::state::player::Player;

verus! {

/// Something that players watch and may act on before it resolves: a roll, an offer to
/// challenge, or a challenge.
pub trait ShowDown {
    /// Where the players are with it, once that is being tracked.
    spec fn spec_tracker(&self) -> Option<CompletionTracker>;

    fn tracker(&self) -> (r: &CompletionTracker)
        requires
            self.spec_tracker() is Some,
        ensures
            Some(*r) == self.spec_tracker(),
    ;

    fn tracker_mut(&mut self) -> (r: &mut CompletionTracker)
        requires
            old(self).spec_tracker() is Some,
        ensures
            Some(*r) == old(self).spec_tracker(),
            final(self).spec_tracker() == Some(*final(r)),
    ;

    /// Whether `c` is the decision that this showdown offers the player in the game: its
    /// kind, period, default and options (the ids of the options are fresh ones).
    spec fn offers_decision(&self, game: Game, player_index: ids::PlayerIndex, c: Choices) -> bool;

    /// The decision that the player is offered.
    fn create_choice_for(&self, context: &mut GameBookKeeping, game: &Game, player_index: ids::PlayerIndex) -> (r: Choices)
        requires
            self.spec_tracker() is Some,
            player_index < game.players@.len(),
        ensures
            r.timeline == self.spec_tracker().unwrap().timeline,
            r.default_choice is Some,
            self.offers_decision(*game, player_index, r),
    ;

    /// What `finish` needs of the showdown and the game.
    spec fn finish_requires(&self, game: Game) -> bool;

    /// Whether `after` is `before` once this showdown's consequences have taken effect.
    spec fn resolved(&self, before: Game, after: Game) -> bool;

    /// Resolves the showdown: its consequences take effect in the game.
    fn finish(&mut self, context: &mut GameBookKeeping, game: &mut Game)
        requires
            old(self).finish_requires(*old(game)),
        ensures
            old(self).resolved(*old(game), *final(game)),
    ;

    /// Gives every player the decision that this showdown offers them.
    fn assign_all_choices(&self, context: &mut GameBookKeeping, game: &mut Game)
        requires
            self.spec_tracker() is Some,
        ensures
            final(game).players@.len() == old(game).players@.len(),
            forall|i: int| 0 <= i < old(game).players@.len() ==> {
                &&& (#[trigger] final(game).players@[i]).choices is Some
                &&& final(game).players@[i].choices.unwrap().timeline == self.spec_tracker().unwrap().timeline
                &&& final(game).players@[i] == (Player { choices: final(game).players@[i].choices, ..old(game).players@[i] })
            },
            final(game).same_except_players(*old(game)),
    {
        let nb_players = game.number_of_players();
        let mut player_index: usize = 0;
        while player_index < nb_players
            invariant
                self.spec_tracker() is Some,
                player_index <= nb_players == game.players@.len() == old(game).players@.len(),
                forall|i: int| 0 <= i < player_index ==> {
                    &&& (#[trigger] game.players@[i]).choices is Some
                    &&& game.players@[i].choices.unwrap().timeline == self.spec_tracker().unwrap().timeline
                    &&& game.players@[i] == (Player { choices: game.players@[i].choices, ..old(game).players@[i] })
                },
                forall|i: int| player_index <= i < game.players@.len() ==> #[trigger] game.players@[i] == old(game).players@[i],
                game.same_except_players(*old(game)),
            decreases nb_players - player_index,
        {
            let choices = self.create_choice_for(context, game, player_index);
            game.players[player_index].choices = Some(choices);
            player_index = player_index + 1;
        }
    }
}

/// Which kind of showdown is going on.
#[derive(Debug, Clone, Copy, PartialEq, Eq, Structural)]
pub enum ShowDownType {
    Nothing,
    Roll,
    OfferChallenges,
    Challenge,
}

/// The showdown going on, if any.
#[derive(Debug)]
pub struct CurrentShowdown {
    pub show_down_type: ShowDownType,
    pub roll: Option<RollState>,
    pub offer: Option<OfferChallengesState>,
    pub challenge: Option<ChallengeState>,
}

/// A showdown taken out of the game, ready to be resolved.
#[derive(Debug)]
pub enum FinishedShowdown {
    Roll(RollState),
    OfferChallenges(OfferChallengesState),
    Challenge(ChallengeState),
}

/// A showdown being looked at.
#[derive(Debug)]
pub enum ShowDownRef<'a> {
    Roll(&'a RollState),
    OfferChallenges(&'a OfferChallengesState),
    Challenge(&'a ChallengeState),
}

/// A showdown being changed.
#[derive(Debug)]
pub enum ShowDownMut<'a> {
    Roll(&'a mut RollState),
    OfferChallenges(&'a mut OfferChallengesState),
    Challenge(&'a mut ChallengeState),
}

impl FinishedShowdown {
    pub open spec fn spec_finish_requires(&self, game: Game) -> bool {
        match self {
            FinishedShowdown::Roll(roll) => roll.finish_requires(game),
            FinishedShowdown::OfferChallenges(offer) => offer.finish_requires(game),
            FinishedShowdown::Challenge(challenge) => challenge.finish_requires(game),
        }
    }

    /// Resolves the showdown.
    pub fn finish(self, context: &mut GameBookKeeping, game: &mut Game)
        requires
            self.spec_finish_requires(*old(game)),
        ensures
            match self {
                FinishedShowdown::Roll(roll) => roll.resolved(*old(game), *final(game)),
                FinishedShowdown::OfferChallenges(offer) => offer.resolved(*old(game), *final(game)),
                FinishedShowdown::Challenge(challenge) => challenge.resolved(*old(game), *final(game)),
            },
    {
        match self {
            FinishedShowdown::Roll(mut roll) => roll.finish(context, game),
            FinishedShowdown::OfferChallenges(mut offer) => offer.finish(context, game),
            FinishedShowdown::Challenge(mut challenge) => challenge.finish(context, game),
        }
    }
}

/// Whether some entry of the list is for the player.
pub open spec fn listed(choices: Seq<(ids::PlayerIndex, Choices)>, player_index: int) -> bool {
    exists|k: int| 0 <= k < choices.len() && #[trigger] choices[k].0 == player_index
}

/// Whether `c` is what the last of the first `upto` entries listed for the player holds.
pub open spec fn last_listed_is(choices: Seq<(ids::PlayerIndex, Choices)>, upto: int, player_index: int, c: Choices) -> bool {
    exists|k: int| {
        &&& 0 <= k < upto
        &&& #[trigger] choices[k].0 == player_index
        &&& forall|j: int| k < j < upto ==> #[trigger] choices[j].0 != player_index
        &&& c.same_as(choices[k].1)
    }
}

/// The choices that a modification hands out: for each listed player, a new decision.
#[derive(Debug)]
pub struct ModificationTask {
    pub choices_to_assign: Vec<(ids::PlayerIndex, Choices)>,
}

impl ModificationTask {
    /// Gives each listed player their new decision.
    pub fn apply(&self, _context: &mut GameBookKeeping, game: &mut Game)
        requires
            forall|k: int| 0 <= k < self.choices_to_assign@.len() ==> (#[trigger] self.choices_to_assign@[k]).0 < old(game).players@.len(),
        ensures
            final(game).players@.len() == old(game).players@.len(),
            forall|i: int| 0 <= i < old(game).players@.len() ==> {
                &&& (#[trigger] final(game).players@[i]) == (Player { choices: final(game).players@[i].choices, ..old(game).players@[i] })
                &&& (forall|k: int| 0 <= k < self.choices_to_assign@.len() ==> #[trigger] self.choices_to_assign@[k].0 != i)
                    ==> final(game).players@[i].choices == old(game).players@[i].choices
                &&& (exists|k: int| 0 <= k < self.choices_to_assign@.len() && #[trigger] self.choices_to_assign@[k].0 == i)
                    ==> final(game).players@[i].choices is Some
                        && last_listed_is(self.choices_to_assign@, self.choices_to_assign@.len() as int, i, final(game).players@[i].choices.unwrap())
            },
            final(game).same_except_players(*old(game)),
    {
        let mut k: usize = 0;
        while k < self.choices_to_assign.len()
            invariant
                k <= self.choices_to_assign@.len(),
                forall|k: int| 0 <= k < self.choices_to_assign@.len() ==> (#[trigger] self.choices_to_assign@[k]).0 < old(game).players@.len(),
                game.players@.len() == old(game).players@.len(),
                forall|i: int| 0 <= i < old(game).players@.len() ==> {
                    &&& (#[trigger] game.players@[i]) == (Player { choices: game.players@[i].choices, ..old(game).players@[i] })
                    &&& (forall|j: int| 0 <= j < k ==> #[trigger] self.choices_to_assign@[j].0 != i)
                        ==> game.players@[i].choices == old(game).players@[i].choices
                    &&& (exists|j: int| 0 <= j < k && #[trigger] self.choices_to_assign@[j].0 == i)
                        ==> game.players@[i].choices is Some
                            && last_listed_is(self.choices_to_assign@, k as int, i, game.players@[i].choices.unwrap())
                },
                game.same_except_players(*old(game)),
            decreases self.choices_to_assign@.len() - k,
        {
            let player_index = self.choices_to_assign[k].0;
            let choices = self.choices_to_assign[k].1.copy();
            game.players[player_index].choices = Some(choices);
            proof {
                let entries = self.choices_to_assign@;
                assert forall|i: int| 0 <= i < old(game).players@.len() && (exists|j: int| 0 <= j < k + 1 && #[trigger] entries[j].0 == i)
                    implies game.players@[i].choices is Some
                        && last_listed_is(entries, k + 1, i, game.players@[i].choices.unwrap()) by {
                    if i != player_index {
                        let j = choose|j: int| 0 <= j < k + 1 && #[trigger] entries[j].0 == i;
                        assert(j < k);
                        assert(last_listed_is(entries, k as int, i, game.players@[i].choices.unwrap()));
                        let kk = choose|kk: int| {
                            &&& 0 <= kk < k
                            &&& #[trigger] entries[kk].0 == i
                            &&& forall|j: int| kk < j < k ==> #[trigger] entries[j].0 != i
                            &&& game.players@[i].choices.unwrap().same_as(entries[kk].1)
                        };
                        assert forall|j: int| kk < j < k + 1 implies #[trigger] entries[j].0 != i by {
                            if j < k {
                            }
                        }
                    } else {
                        assert(entries[k as int].0 == i);
                        assert(game.players@[i].choices.unwrap().same_as(entries[k as int].1));
                    }
                }
            }
            k = k + 1;
        }
    }
}

impl CurrentShowdown {
    /// Whether no showdown is going on, and none is stored.
    pub open spec fn is_empty(self) -> bool {
        &&& self.show_down_type == ShowDownType::Nothing
        &&& self.roll is None
        &&& self.offer is None
        &&& self.challenge is None
    }

    /// Whether the stored showdown of the current kind, if any, tracks the players.
    pub open spec fn has_trackers(self) -> bool {
        &&& (self.show_down_type == ShowDownType::Roll && self.roll is Some) ==> self.roll.unwrap().completion_tracker is Some
        &&& (self.show_down_type == ShowDownType::OfferChallenges && self.offer is Some) ==> self.offer.unwrap().completion_tracker is Some
        &&& (self.show_down_type == ShowDownType::Challenge && self.challenge is Some) ==> self.challenge.unwrap().completion_tracker is Some
    }

    /// The tracker of the current showdown, if there is one.
    pub open spec fn spec_current_tracker(self) -> Option<CompletionTracker> {
        match self.show_down_type {
            ShowDownType::Nothing => None,
            ShowDownType::Roll => match self.roll {
                Some(roll) => roll.completion_tracker,
                None => None,
            },
            ShowDownType::OfferChallenges => match self.offer {
                Some(offer) => offer.completion_tracker,
                None => None,
            },
            ShowDownType::Challenge => match self.challenge {
                Some(challenge) => challenge.completion_tracker,
                None => None,
            },
        }
    }

    /// Whether a showdown of the current kind is stored.
    pub open spec fn has_current(self) -> bool {
        match self.show_down_type {
            ShowDownType::Nothing => false,
            ShowDownType::Roll => self.roll is Some,
            ShowDownType::OfferChallenges => self.offer is Some,
            ShowDownType::Challenge => self.challenge is Some,
        }
    }

    /// How many players the current showdown tracks, where one is going on and tracks them.
    pub fn tracked_current_len(&self) -> (r: Option<usize>)
        ensures
            r is Some <==> (self.has_current() && self.spec_current_tracker() is Some),
            r is Some ==> self.has_trackers() && r.unwrap() == self.spec_current_tracker().unwrap().completions@.len(),
    {
        match self.show_down_type {
            ShowDownType::Nothing => None,
            ShowDownType::Roll => match &self.roll {
                Some(roll) => match &roll.completion_tracker {
                    Some(tracker) => Some(tracker.completions.len()),
                    None => None,
                },
                None => None,
            },
            ShowDownType::OfferChallenges => match &self.offer {
                Some(offer) => match &offer.completion_tracker {
                    Some(tracker) => Some(tracker.completions.len()),
                    None => None,
                },
                None => None,
            },
            ShowDownType::Challenge => match &self.challenge {
                Some(challenge) => match &challenge.completion_tracker {
                    Some(tracker) => Some(tracker.completions.len()),
                    None => None,
                },
                None => None,
            },
        }
    }

    /// No showdown.
    pub fn new() -> (r: Self)
        ensures
            r.is_empty(),
    {
        CurrentShowdown { show_down_type: ShowDownType::Nothing, roll: None, offer: None, challenge: None }
    }

    /// Restarts the clock of the current showdown, if there is one: its period starts again
    /// at the clock's reading and keeps its length; nothing else changes.
    pub fn reset_timer(&mut self)
        requires
            old(self).has_trackers(),
        ensures
            final(self).show_down_type == old(self).show_down_type,
            final(self).has_trackers(),
            final(self).has_current() == old(self).has_current(),
            old(self).has_current() ==> final(self).spec_current_tracker().unwrap().completions@ == old(self).spec_current_tracker().unwrap().completions@,
            old(self).has_current() ==> final(self).spec_current_tracker().unwrap().timeline.duration_millis
                == old(self).spec_current_tracker().unwrap().timeline.duration_millis,
            old(self).show_down_type != ShowDownType::Roll ==> final(self).roll == old(self).roll,
            old(self).show_down_type != ShowDownType::OfferChallenges ==> final(self).offer == old(self).offer,
            old(self).show_down_type != ShowDownType::Challenge ==> final(self).challenge == old(self).challenge,
            final(self).roll is Some == old(self).roll is Some,
            final(self).offer is Some == old(self).offer is Some,
            final(self).challenge is Some == old(self).challenge is Some,
            old(self).roll matches Some(before) ==> final(self).roll.unwrap() == (RollState {
                completion_tracker: final(self).roll.unwrap().completion_tracker,
                ..before
            }),
            old(self).offer matches Some(before) ==> final(self).offer.unwrap() == (OfferChallengesState {
                completion_tracker: final(self).offer.unwrap().completion_tracker,
                ..before
            }),
            old(self).challenge matches Some(before) ==> final(self).challenge.unwrap() == (ChallengeState {
                completion_tracker: final(self).challenge.unwrap().completion_tracker,
                ..before
            }),
    {
        match self.show_down_type {
            ShowDownType::Nothing => {},
            ShowDownType::Roll => if let Some(roll) = &mut self.roll {
                roll.tracker_mut().reset_timeline();
            },
            ShowDownType::OfferChallenges => if let Some(offer) = &mut self.offer {
                offer.tracker_mut().reset_timeline();
            },
            ShowDownType::Challenge => if let Some(challenge) = &mut self.challenge {
                challenge.tracker_mut().reset_timeline();
            },
        }
    }

    pub fn get_roll(&self) -> (r: Option<&RollState>)
        ensures
            r == match self.roll {
                Some(roll) => Some(&roll),
                None => None::<&RollState>,
            },
    {
        self.roll.as_ref()
    }

    pub fn get_offer(&self) -> (r: Option<&OfferChallengesState>)
        ensures
            r == match self.offer {
                Some(offer) => Some(&offer),
                None => None::<&OfferChallengesState>,
            },
    {
        self.offer.as_ref()
    }

    pub fn get_challenge(&self) -> (r: Option<&ChallengeState>)
        ensures
            r == match self.challenge {
                Some(challenge) => Some(&challenge),
                None => None::<&ChallengeState>,
            },
    {
        self.challenge.as_ref()
    }

    /// Takes out the offer to challenge that is going on.
    ///
    /// Fails, changing nothing, where no offer is going on; where one is said to go on but
    /// none is stored, fails after clearing the kind.
    pub fn take_current_offer(&mut self) -> (r: SlayResult<OfferChallengesState>)
        ensures
            old(self).show_down_type != ShowDownType::OfferChallenges ==> r is Err && *final(self) == *old(self),
            old(self).show_down_type == ShowDownType::OfferChallenges ==> {
                &&& final(self).show_down_type == ShowDownType::Nothing
                &&& final(self).offer is None
                &&& final(self).roll == old(self).roll
                &&& final(self).challenge == old(self).challenge
                &&& match old(self).offer {
                    Some(offer) => r == Ok::<OfferChallengesState, SlayError>(offer),
                    None => r is Err,
                }
            },
    {
        if self.show_down_type != ShowDownType::OfferChallenges {
            return Err(SlayError::new("Needed to be offering challenges, instead there was no roll event."));
        }
        self.show_down_type = ShowDownType::Nothing;
        match self.offer.take() {
            Some(offer) => Ok(offer),
            None => Err(SlayError::new("No eyes shall see this")),
        }
    }

    /// Starts a roll; no showdown may be going on.
    pub fn roll(&mut self, roll: RollState)
        requires
            old(self).show_down_type == ShowDownType::Nothing,
        ensures
            final(self).show_down_type == ShowDownType::Roll,
            final(self).roll == Some(roll),
            final(self).offer is None,
            final(self).challenge is None,
    {
        self.show_down_type = ShowDownType::Roll;
        self.roll = Some(roll);
        self.challenge = None;
        self.offer = None;
    }

    /// Starts a challenge; no showdown may be going on.
    pub fn challenge(&mut self, challenge: ChallengeState)
        requires
            old(self).show_down_type == ShowDownType::Nothing,
        ensures
            final(self).show_down_type == ShowDownType::Challenge,
            final(self).challenge == Some(challenge),
            final(self).offer is None,
            final(self).roll is None,
    {
        self.show_down_type = ShowDownType::Challenge;
        self.roll = None;
        self.challenge = Some(challenge);
        self.offer = None;
    }

    /// Starts an offer to challenge; no showdown may be going on.
    pub fn offer(&mut self, offer: OfferChallengesState)
        requires
            old(self).show_down_type == ShowDownType::Nothing,
        ensures
            final(self).show_down_type == ShowDownType::OfferChallenges,
            final(self).offer == Some(offer),
            final(self).challenge is None,
            final(self).roll is None,
    {
        self.show_down_type = ShowDownType::OfferChallenges;
        self.roll = None;
        self.challenge = None;
        self.offer = Some(offer);
    }

    /// Drops every stored showdown; some showdown must be going on.  The kind is left as it was.
    pub fn clear(&mut self)
        requires
            old(self).show_down_type != ShowDownType::Nothing,
        ensures
            final(self).show_down_type == old(self).show_down_type,
            final(self).roll is None,
            final(self).offer is None,
            final(self).challenge is None,
    {
        self.roll = None;
        self.challenge = None;
        self.offer = None;
    }

    /// The showdown going on, if one is stored.
    pub fn current(&self) -> (r: Option<ShowDownRef<'_>>)
        ensures
            r is Some == self.has_current(),
            r matches Some(ShowDownRef::Roll(roll)) ==> self.show_down_type == ShowDownType::Roll && self.roll == Some(*roll),
            r matches Some(ShowDownRef::OfferChallenges(offer)) ==> self.show_down_type == ShowDownType::OfferChallenges && self.offer == Some(*offer),
            r matches Some(ShowDownRef::Challenge(challenge)) ==> self.show_down_type == ShowDownType::Challenge && self.challenge == Some(*challenge),
    {
        match self.show_down_type {
            ShowDownType::Nothing => None,
            ShowDownType::Roll => match &self.roll {
                Some(roll) => Some(ShowDownRef::Roll(roll)),
                None => None,
            },
            ShowDownType::OfferChallenges => match &self.offer {
                Some(offer) => Some(ShowDownRef::OfferChallenges(offer)),
                None => None,
            },
            ShowDownType::Challenge => match &self.challenge {
                Some(challenge) => Some(ShowDownRef::Challenge(challenge)),
                None => None,
            },
        }
    }

    /// The showdown going on, if one is stored, to be changed.
    pub fn current_mut(&mut self) -> (r: Option<ShowDownMut<'_>>)
        ensures
            r is Some == old(self).has_current(),
            r is None ==> *final(self) == *old(self),
            r matches Some(ShowDownMut::Roll(roll)) ==> old(self).show_down_type == ShowDownType::Roll
                && old(self).roll == Some(*roll)
                && *final(self) == (CurrentShowdown { roll: Some(*final(roll)), ..*old(self) }),
            r matches Some(ShowDownMut::OfferChallenges(offer)) ==> old(self).show_down_type == ShowDownType::OfferChallenges
                && old(self).offer == Some(*offer)
                && *final(self) == (CurrentShowdown { offer: Some(*final(offer)), ..*old(self) }),
            r matches Some(ShowDownMut::Challenge(challenge)) ==> old(self).show_down_type == ShowDownType::Challenge
                && old(self).challenge == Some(*challenge)
                && *final(self) == (CurrentShowdown { challenge: Some(*final(challenge)), ..*old(self) }),
    {
        match self.show_down_type {
            ShowDownType::Nothing => None,
            ShowDownType::Roll => match &mut self.roll {
                Some(roll) => Some(ShowDownMut::Roll(roll)),
                None => None,
            },
            ShowDownType::OfferChallenges => match &mut self.offer {
                Some(offer) => Some(ShowDownMut::OfferChallenges(offer)),
                None => None,
            },
            ShowDownType::Challenge => match &mut self.challenge {
                Some(challenge) => Some(ShowDownMut::Challenge(challenge)),
                None => None,
            },
        }
    }

    fn current_is_complete(&self) -> (r: bool)
        requires
            self.has_trackers(),
            self.has_current(),
        ensures
            self.spec_current_tracker().unwrap().all_done() ==> r,
    {
        self.current_is_complete_at(crate::deadlines::current_time_millis())
    }

    /// Whether everyone is done with the current showdown at time `now_millis`: each has
    /// said so, or its period is over.
    fn current_is_complete_at(&self, now_millis: u64) -> (r: bool)
        requires
            self.has_trackers(),
            self.has_current(),
        ensures
            r == (self.spec_current_tracker().unwrap().all_done()
                || now_millis >= self.spec_current_tracker().unwrap().timeline.end_millis()),
    {
        match self.show_down_type {
            ShowDownType::Roll => self.roll.as_ref().unwrap().tracker().is_complete_at(now_millis),
            ShowDownType::OfferChallenges => self.offer.as_ref().unwrap().tracker().is_complete_at(now_millis),
            ShowDownType::Challenge => self.challenge.as_ref().unwrap().tracker().is_complete_at(now_millis),
            ShowDownType::Nothing => false,
        }
    }

    /// Takes out the showdown going on if, at time `now_millis`, everyone is done with it or
    /// its period is over.
    pub fn take_complete_at(&mut self, now_millis: u64) -> (r: Option<FinishedShowdown>)
        requires
            old(self).has_trackers(),
        ensures
            r is Some <==> (old(self).has_current() && (old(self).spec_current_tracker().unwrap().all_done()
                || now_millis >= old(self).spec_current_tracker().unwrap().timeline.end_millis())),
            !old(self).has_current() ==> r is None && *final(self) == *old(self),
            r is None ==> *final(self) == *old(self),
            old(self).has_current() && old(self).spec_current_tracker().unwrap().all_done() ==> r is Some,
            r is Some ==> final(self).show_down_type == ShowDownType::Nothing,
            r matches Some(FinishedShowdown::Roll(roll)) ==> old(self).show_down_type == ShowDownType::Roll
                && old(self).roll == Some(roll) && final(self).roll is None && final(self).offer == old(self).offer
                && final(self).challenge == old(self).challenge,
            r matches Some(FinishedShowdown::OfferChallenges(offer)) ==> old(self).show_down_type == ShowDownType::OfferChallenges
                && old(self).offer == Some(offer) && final(self).offer is None && final(self).roll == old(self).roll
                && final(self).challenge == old(self).challenge,
            r matches Some(FinishedShowdown::Challenge(challenge)) ==> old(self).show_down_type == ShowDownType::Challenge
                && old(self).challenge == Some(challenge) && final(self).challenge is None && final(self).roll == old(self).roll
                && final(self).offer == old(self).offer,
    {
        let has_current = match self.show_down_type {
            ShowDownType::Nothing => false,
            ShowDownType::Roll => self.roll.is_some(),
            ShowDownType::OfferChallenges => self.offer.is_some(),
            ShowDownType::Challenge => self.challenge.is_some(),
        };
        if !has_current {
            return None;
        }
        if !self.current_is_complete_at(now_millis) {
            return None;
        }
        let current_type = self.show_down_type;
        self.show_down_type = ShowDownType::Nothing;
        match current_type {
            ShowDownType::Roll => match self.roll.take() {
                Some(roll) => Some(FinishedShowdown::Roll(roll)),
                None => None,
            },
            ShowDownType::OfferChallenges => match self.offer.take() {
                Some(offer) => Some(FinishedShowdown::OfferChallenges(offer)),
                None => None,
            },
            ShowDownType::Challenge => match self.challenge.take() {
                Some(challenge) => Some(FinishedShowdown::Challenge(challenge)),
                None => None,
            },
            ShowDownType::Nothing => None,
        }
    }

    /// Takes out the showdown going on if everyone is done with it (or its time is up).
    pub fn take_complete(&mut self) -> (r: Option<FinishedShowdown>)
        requires
            old(self).has_trackers(),
        ensures
            !old(self).has_current() ==> r is None && *final(self) == *old(self),
            r is None ==> *final(self) == *old(self),
            old(self).has_current() && old(self).spec_current_tracker().unwrap().all_done() ==> r is Some,
            r is Some ==> final(self).show_down_type == ShowDownType::Nothing,
            r matches Some(FinishedShowdown::Roll(roll)) ==> old(self).show_down_type == ShowDownType::Roll
                && old(self).roll == Some(roll) && final(self).roll is None && final(self).offer == old(self).offer
                && final(self).challenge == old(self).challenge,
            r matches Some(FinishedShowdown::OfferChallenges(offer)) ==> old(self).show_down_type == ShowDownType::OfferChallenges
                && old(self).offer == Some(offer) && final(self).offer is None && final(self).roll == old(self).roll
                && final(self).challenge == old(self).challenge,
            r matches Some(FinishedShowdown::Challenge(challenge)) ==> old(self).show_down_type == ShowDownType::Challenge
                && old(self).challenge == Some(challenge) && final(self).challenge is None && final(self).roll == old(self).roll
                && final(self).offer == old(self).offer,
    {
        self.take_complete_at(crate::deadlines::current_time_millis())
    }

    /// Adds a modification to the roll at the path: the roll of a roll showdown, or one of
    /// the two rolls of a challenge.  Fails, changing nothing, where no showdown is going on
    /// or the path does not fit the one that is.
    pub fn add_modification(&mut self, modification_path: ModificationPath, modification: RollModification) -> (r: SlayResult<()>)
        requires
            old(self).has_trackers(),
            modification_path == ModificationPath::Roll && old(self).show_down_type == ShowDownType::Roll ==> old(self).roll is Some,
            modification_path != ModificationPath::Roll && old(self).show_down_type == ShowDownType::Challenge ==> old(self).challenge is Some,
        ensures
            r is Ok <==> ((modification_path == ModificationPath::Roll && old(self).show_down_type == ShowDownType::Roll)
                || (modification_path != ModificationPath::Roll && old(self).show_down_type == ShowDownType::Challenge)),
            r is Err ==> *final(self) == *old(self),
            final(self).show_down_type == old(self).show_down_type,
            final(self).has_trackers(),
            final(self).has_current() == old(self).has_current(),
            final(self).spec_current_tracker() is Some == old(self).spec_current_tracker() is Some,
            old(self).spec_current_tracker() is Some ==> final(self).spec_current_tracker().unwrap().completions@
                == old(self).spec_current_tracker().unwrap().completions@,
            r is Ok ==> final(self).modification_added(*old(self), modification_path, modification),
            r is Ok ==> final(self).offer == old(self).offer,
            r is Ok && modification_path == ModificationPath::Roll ==> {
                &&& final(self).challenge == old(self).challenge
                &&& final(self).roll.unwrap().roller_index == old(self).roll.unwrap().roller_index
                &&& final(self).roll.unwrap().reason == old(self).roll.unwrap().reason
                &&& final(self).roll.unwrap().consequences == old(self).roll.unwrap().consequences
                &&& final(self).roll.unwrap().initial == old(self).roll.unwrap().initial
            },
            r is Ok && modification_path != ModificationPath::Roll ==> {
                &&& final(self).roll == old(self).roll
                &&& final(self).challenge.unwrap().consequences == old(self).challenge.unwrap().consequences
                &&& final(self).challenge.unwrap().reason == old(self).challenge.unwrap().reason
                &&& final(self).challenge.unwrap().initiator.player_index == old(self).challenge.unwrap().initiator.player_index
                &&& final(self).challenge.unwrap().challenger.player_index == old(self).challenge.unwrap().challenger.player_index
            },
            r is Ok && modification_path == ModificationPath::Roll ==> final(self).roll.unwrap().history@
                == old(self).roll.unwrap().history@.push(modification),
            r is Ok && modification_path == ModificationPath::Challenger ==> final(self).challenge.unwrap().challenger.history@
                == old(self).challenge.unwrap().challenger.history@.push(modification)
                && final(self).challenge.unwrap().initiator == old(self).challenge.unwrap().initiator,
            r is Ok && modification_path == ModificationPath::Initiator ==> final(self).challenge.unwrap().initiator.history@
                == old(self).challenge.unwrap().initiator.history@.push(modification)
                && final(self).challenge.unwrap().challenger == old(self).challenge.unwrap().challenger,
    {
        match modification_path {
            ModificationPath::Roll => match self.show_down_type {
                ShowDownType::Nothing => return Err(SlayError::new("ASFDGAJKLRIYU")),
                ShowDownType::Roll => {},
                ShowDownType::OfferChallenges => return Err(SlayError::new("ADSHAF")),
                ShowDownType::Challenge => return Err(SlayError::new("adsfbHJJJQ")),
            },
            ModificationPath::Challenger => match self.show_down_type {
                ShowDownType::Nothing => return Err(SlayError::new("asdfgaq4hadf")),
                ShowDownType::Roll => return Err(SlayError::new("aevq34yq")),
                ShowDownType::OfferChallenges => return Err(SlayError::new("3vaesdghar")),
                ShowDownType::Challenge => {},
            },
            ModificationPath::Initiator => match self.show_down_type {
                ShowDownType::Nothing => return Err(SlayError::new("gadsgadg")),
                ShowDownType::Roll => return Err(SlayError::new("mp[aqgjsy")),
                ShowDownType::OfferChallenges => return Err(SlayError::new("")),
                ShowDownType::Challenge => {},
            },
        }
        match self.show_down_type {
            ShowDownType::Roll => {
                if let Some(roll) = &mut self.roll {
                    roll.add_modification(modification);
                }
            },
            ShowDownType::Challenge => {
                if let Some(challenge) = &mut self.challenge {
                    challenge.add_modification(modification_path, modification);
                }
            },
            _ => {},
        }
        Ok(())
    }

    /// Whether `self` is `before` once the modification has been added at the path: the
    /// roll there gains it at the end of its history, the other rolls and the offer stay as
    /// they were, and the players' completions are kept.
    pub open spec fn modification_added(self, before: CurrentShowdown, path: ModificationPath, modification: RollModification) -> bool {
        &&& self.show_down_type == before.show_down_type
        &&& self.has_trackers()
        &&& self.has_current() == before.has_current()
        &&& self.spec_current_tracker() is Some == before.spec_current_tracker() is Some
        &&& before.spec_current_tracker() is Some ==> self.spec_current_tracker().unwrap().completions@
            == before.spec_current_tracker().unwrap().completions@
        &&& self.offer == before.offer
        &&& path == ModificationPath::Roll ==> {
            &&& self.challenge == before.challenge
            &&& self.roll.unwrap().history@ == before.roll.unwrap().history@.push(modification)
            &&& self.roll.unwrap().roller_index == before.roll.unwrap().roller_index
            &&& self.roll.unwrap().reason == before.roll.unwrap().reason
            &&& self.roll.unwrap().consequences == before.roll.unwrap().consequences
            &&& self.roll.unwrap().initial == before.roll.unwrap().initial
        }
        &&& path != ModificationPath::Roll ==> {
            &&& self.roll == before.roll
            &&& self.challenge.unwrap().consequences == before.challenge.unwrap().consequences
            &&& self.challenge.unwrap().reason == before.challenge.unwrap().reason
            &&& self.challenge.unwrap().initiator.player_index == before.challenge.unwrap().initiator.player_index
            &&& self.challenge.unwrap().challenger.player_index == before.challenge.unwrap().challenger.player_index
        }
        &&& path == ModificationPath::Challenger ==> {
            &&& self.challenge.unwrap().challenger.history@ == before.challenge.unwrap().challenger.history@.push(modification)
            &&& self.challenge.unwrap().initiator == before.challenge.unwrap().initiator
        }
        &&& path == ModificationPath::Initiator ==> {
            &&& self.challenge.unwrap().initiator.history@ == before.challenge.unwrap().initiator.history@.push(modification)
            &&& self.challenge.unwrap().challenger == before.challenge.unwrap().challenger
        }
    }

    /// Whether `c` is the decision that the showdown going on offers the player in the game.
    pub open spec fn offers_decision_now(self, game: Game, player_index: ids::PlayerIndex, c: Choices) -> bool {
        match self.show_down_type {
            ShowDownType::Roll => self.roll.unwrap().offers_decision(game, player_index, c),
            ShowDownType::OfferChallenges => self.offer.unwrap().offers_decision(game, player_index, c),
            ShowDownType::Challenge => self.challenge.unwrap().offers_decision(game, player_index, c),
            ShowDownType::Nothing => false,
        }
    }

    /// Whether a player decides again after a modification by `modifying_player_index`.
    pub open spec fn offers_again(self, player_index: int, modifying_player_index: ids::PlayerIndex) -> bool {
        player_index == modifying_player_index || self.spec_current_tracker().unwrap().completions@[player_index].spec_offer_on_modify()
    }

    /// The decisions that follow a modification by a player: that player, and every player
    /// who said they were done only until the next modification, decide again.
    pub fn get_modification_task(
        &self,
        context: &mut GameBookKeeping,
        game: &Game,
        modifying_player_index: ids::PlayerIndex,
    ) -> (r: ModificationTask)
        requires
            self.has_trackers(),
            self.has_current(),
            self.spec_current_tracker().unwrap().completions@.len() >= game.players@.len(),
        ensures
            forall|k: int| 0 <= k < r.choices_to_assign@.len() ==> (#[trigger] r.choices_to_assign@[k]).0 < game.players@.len(),
            forall|k: int, j: int| 0 <= k < j < r.choices_to_assign@.len() ==> (#[trigger] r.choices_to_assign@[k]).0 < (#[trigger] r.choices_to_assign@[j]).0,
            forall|p: int| 0 <= p < game.players@.len() ==> (#[trigger] listed(r.choices_to_assign@, p) <==> self.offers_again(p, modifying_player_index)),
            forall|k: int| 0 <= k < r.choices_to_assign@.len() ==> (#[trigger] r.choices_to_assign@[k]).1.timeline
                == self.spec_current_tracker().unwrap().timeline && r.choices_to_assign@[k].1.default_choice is Some,
            forall|k: int| 0 <= k < r.choices_to_assign@.len() ==> self.offers_decision_now(
                *game,
                (#[trigger] r.choices_to_assign@[k]).0,
                r.choices_to_assign@[k].1,
            ),
    {
        let n = game.number_of_players();
        let mut choices_to_assign: Vec<(ids::PlayerIndex, Choices)> = Vec::new();
        let mut player_index: usize = 0;
        while player_index < n
            invariant
                player_index <= n == game.players@.len(),
                self.has_trackers(),
                self.has_current(),
                self.spec_current_tracker().unwrap().completions@.len() >= game.players@.len(),
                forall|k: int| 0 <= k < choices_to_assign@.len() ==> (#[trigger] choices_to_assign@[k]).0 < player_index,
                forall|k: int, j: int| 0 <= k < j < choices_to_assign@.len() ==> (#[trigger] choices_to_assign@[k]).0 < (#[trigger] choices_to_assign@[j]).0,
                forall|p: int| 0 <= p < player_index ==> (#[trigger] listed(choices_to_assign@, p) <==> self.offers_again(p, modifying_player_index)),
                forall|k: int| 0 <= k < choices_to_assign@.len() ==> (#[trigger] choices_to_assign@[k]).1.timeline
                    == self.spec_current_tracker().unwrap().timeline && choices_to_assign@[k].1.default_choice is Some,
                forall|k: int| 0 <= k < choices_to_assign@.len() ==> self.offers_decision_now(
                    *game,
                    (#[trigger] choices_to_assign@[k]).0,
                    choices_to_assign@[k].1,
                ),
            decreases n - player_index,
        {
            let again = match self.current() {
                Some(ShowDownRef::Roll(roll)) => roll.tracker().should_offer_modifications_again(player_index),
                Some(ShowDownRef::OfferChallenges(offer)) => offer.tracker().should_offer_modifications_again(player_index),
                Some(ShowDownRef::Challenge(challenge)) => challenge.tracker().should_offer_modifications_again(player_index),
                None => false,
            };
            let ghost before = choices_to_assign@;
            let pushed = player_index == modifying_player_index || again;
            assert(pushed == self.offers_again(player_index as int, modifying_player_index));
            if pushed {
                let choices = match self.current() {
                    Some(ShowDownRef::Roll(roll)) => roll.create_choice_for(context, game, player_index),
                    Some(ShowDownRef::OfferChallenges(offer)) => offer.create_choice_for(context, game, player_index),
                    Some(ShowDownRef::Challenge(challenge)) => challenge.create_choice_for(context, game, player_index),
                    None => vstd::pervasive::unreached(),
                };
                choices_to_assign.push((player_index, choices));
            }
            proof {
                assert forall|p: int| 0 <= p < player_index + 1 implies (#[trigger] listed(choices_to_assign@, p) <==> self.offers_again(p, modifying_player_index)) by {
                    if p < player_index {
                        assert(listed(before, p) <==> self.offers_again(p, modifying_player_index));
                        if listed(choices_to_assign@, p) {
                            let k = choose|k: int| 0 <= k < choices_to_assign@.len() && #[trigger] choices_to_assign@[k].0 == p;
                            assert(k < before.len());
                            assert(before[k].0 == p);
                        }
                        if listed(before, p) {
                            let k = choose|k: int| 0 <= k < before.len() && #[trigger] before[k].0 == p;
                            assert(choices_to_assign@[k].0 == p);
                        }
                    } else {
                        if pushed {
                            assert(choices_to_assign@[before.len() as int].0 == p);
                        } else if listed(choices_to_assign@, p) {
                            let k = choose|k: int| 0 <= k < choices_to_assign@.len() && #[trigger] choices_to_assign@[k].0 == p;
                            assert(before[k].0 < player_index);
                        }
                    }
                }
            }
            player_index = player_index + 1;
        }
        ModificationTask { choices_to_assign }
    }

    /// Records how far a player is with the current showdown.
    ///
    /// Fails, changing nothing, where no showdown is going on.
    pub fn set_player_completion(&mut self, player_index: ids::PlayerIndex, persist: RollCompletion) -> (r: SlayResult<()>)
        requires
            old(self).has_trackers(),
            old(self).has_current() ==> player_index < old(self).spec_current_tracker().unwrap().completions@.len(),
        ensures
            r is Err <==> old(self).show_down_type == ShowDownType::Nothing,
            r is Err ==> *final(self) == *old(self),
            final(self).show_down_type == old(self).show_down_type,
            final(self).has_trackers(),
            final(self).has_current() == old(self).has_current(),
            old(self).has_current() ==> {
                &&& final(self).spec_current_tracker().unwrap().completions@
                    == old(self).spec_current_tracker().unwrap().completions@.update(player_index as int, persist)
                &&& final(self).spec_current_tracker().unwrap().timeline == old(self).spec_current_tracker().unwrap().timeline
            },
    {
        match self.show_down_type {
            ShowDownType::Nothing => {
                return Err(SlayError::new("alskjdf;alksjdf;"));
            },
            ShowDownType::Roll => if let Some(roll) = &mut self.roll {
                roll.tracker_mut().set_player_completion(player_index, persist);
            },
            ShowDownType::OfferChallenges => if let Some(offer) = &mut self.offer {
                offer.tracker_mut().set_player_completion(player_index, persist);
            },
            ShowDownType::Challenge => if let Some(challenge) = &mut self.challenge {
                challenge.tracker_mut().set_player_completion(player_index, persist);
            },
        }
        Ok(())
    }
}

impl Default for CurrentShowdown {
    fn default() -> (r: Self)
        ensures
            r.is_empty(),
    {
        Self::new()
    }
}

} // verus!
