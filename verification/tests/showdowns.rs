use slay::deadlines::Timeline;
use slay::game_context::GameBookKeeping;
use slay::showdown::challenge::ChallengeState;
use slay::showdown::completion::{Completion, CompletionTracker};
use slay::showdown::consequences::{Condition, RollConsequence, RollConsequences};
use slay::showdown::current_showdown::{CurrentShowdown, ShowDownMut, ShowDownType};
use slay::showdown::offer::OfferChallengesState;
use slay::showdown::roll::ChallengeReason;
use slay::specification::HeroType;
use slay::specs::cards::SlayCardSpec;
use slay::specs::hero::HeroAbilityType;
use slay::state::{Card, Game, Player};
use slay::showdown::roll_modification::{ModificationOrigin, ModificationPath, RollModification};
use slay::specs::modifier::ModifierKinds;
use slay::status_effects::effect_entry::EffectOrigin;
use slay::tasks::{ChallengeTask, ModifyRollTask, PlayerTask, TaskProgressResult};

fn consequences() -> RollConsequences {
    RollConsequences {
        success: RollConsequence { condition: Condition::ge(7), tasks: vec![PlayerTask::Draw(1)] },
        loss: Some(RollConsequence { condition: Condition::le(6), tasks: vec![PlayerTask::Discard(1)] }),
    }
}

fn reason() -> ChallengeReason {
    ChallengeReason::PlaceHeroCard(SlayCardSpec::HeroCard(HeroAbilityType::Hook))
}

fn game_with_players(n: usize) -> Game {
    let mut game = Game::new();
    for index in 0..n {
        let leader = Card::new(100 + index as u32, SlayCardSpec::PartyLeader(HeroType::Ranger));
        game.players.push(Player::new(format!("player {}", index), index, leader));
    }
    game
}

#[test]
fn a_tracker_is_complete_when_everyone_is_done_or_time_is_up() {
    let mut tracker = CompletionTracker::new(2, Timeline::new(1000, 500));
    assert!(!tracker.is_complete_at(1499));
    assert!(tracker.is_complete_at(1500));
    tracker.set_player_completion(0, Completion::AllDone);
    assert!(!tracker.is_complete_at(1000));
    tracker.set_player_completion(1, Completion::DoneUntilModification);
    assert!(tracker.is_complete_at(1000));
    assert!(tracker.should_offer_modifications_again(1));
    assert!(!tracker.should_offer_modifications_again(0));
}

#[test]
fn an_offer_can_be_taken_out_once() {
    let mut showdown = CurrentShowdown::new();
    assert!(showdown.take_current_offer().is_err());
    showdown.offer(OfferChallengesState::new(2, consequences(), reason()));
    assert_eq!(showdown.show_down_type, ShowDownType::OfferChallenges);
    let offer = showdown.take_current_offer().unwrap();
    assert_eq!(offer.player_index, 2);
    assert_eq!(showdown.show_down_type, ShowDownType::Nothing);
    assert!(showdown.take_current_offer().is_err());
}

#[test]
fn clearing_keeps_the_kind_of_showdown() {
    let mut showdown = CurrentShowdown::new();
    showdown.offer(OfferChallengesState::new(0, consequences(), reason()));
    showdown.clear();
    assert_eq!(showdown.show_down_type, ShowDownType::OfferChallenges);
    assert!(showdown.get_offer().is_none());
    assert!(showdown.current().is_none());
}

#[test]
fn a_challenge_compares_the_two_rolls() {
    let mut context = GameBookKeeping::new();
    let challenge = ChallengeState::new(&mut context.rng, 0, 1, consequences(), reason());
    assert_eq!(challenge.initiator.player_index, 0);
    assert_eq!(challenge.challenger.player_index, 1);
    let difference = challenge.calculate_roll_total();
    let initiator = (challenge.initiator.initial.die1 + challenge.initiator.initial.die2) as i32;
    let challenger = (challenge.challenger.initial.die1 + challenge.challenger.initial.die2) as i32;
    assert_eq!(difference, initiator - challenger);
    assert!((2..=12).contains(&initiator));
    assert!((2..=12).contains(&challenger));
}

#[test]
fn challenging_an_offer_starts_a_challenge_with_choices_for_everyone() {
    let mut context = GameBookKeeping::new();
    let mut game = game_with_players(3);
    let mut offer = OfferChallengesState::new(0, consequences(), reason());
    offer.completion_tracker = Some(CompletionTracker::new(3, Timeline::new(0, 10000)));
    game.showdown.offer(offer);
    let task = PlayerTask::Challenge(ChallengeTask::new());
    let result = task.make_progress(&mut context, &mut game, 2);
    assert_eq!(result.unwrap(), TaskProgressResult::TaskComplete);
    assert_eq!(game.showdown.show_down_type, ShowDownType::Challenge);
    let challenge = game.showdown.get_challenge().unwrap();
    assert_eq!(challenge.initiator.player_index, 0);
    assert_eq!(challenge.challenger.player_index, 2);
    assert!(game.players.iter().all(|p| p.choices.is_some()));
}

#[test]
fn challenging_without_an_offer_fails() {
    let mut context = GameBookKeeping::new();
    let mut game = game_with_players(2);
    let task = PlayerTask::Challenge(ChallengeTask::new());
    assert!(task.make_progress(&mut context, &mut game, 1).is_err());
    assert_eq!(game.showdown.show_down_type, ShowDownType::Nothing);
}

#[test]
fn setting_completion_needs_a_showdown() {
    let mut context = GameBookKeeping::new();
    let mut game = game_with_players(2);
    let task = PlayerTask::SetCompletion(Completion::AllDone);
    assert!(task.make_progress(&mut context, &mut game, 0).is_err());
}

#[test]
fn the_current_showdown_can_be_changed_in_place() {
    let mut showdown = CurrentShowdown::new();
    assert!(showdown.current_mut().is_none());
    showdown.offer(OfferChallengesState::new(1, consequences(), reason()));
    match showdown.current_mut() {
        Some(ShowDownMut::OfferChallenges(offer)) => offer.player_index = 3,
        _ => panic!("the offer should be going on"),
    }
    assert_eq!(showdown.get_offer().unwrap().player_index, 3);
}

#[test]
fn the_clock_reads_the_current_time() {
    let now = slay::deadlines::current_time_millis();
    // Some time after the start of 2020, in milliseconds since 1970.
    assert!(now > 1_577_836_800_000);
    let deadline = slay::deadlines::get_offer_deadline();
    assert_eq!(deadline.duration_millis, 10000);
    assert!(deadline.start_millis >= now);
    assert!(!deadline.is_complete_at(deadline.start_millis + 9999));
    assert!(deadline.is_complete_at(deadline.start_millis + 10000));
}

#[test]
fn a_modification_must_fit_the_showdown() {
    let mut showdown = CurrentShowdown::new();
    let mut offer = OfferChallengesState::new(0, consequences(), reason());
    offer.completion_tracker = Some(CompletionTracker::new(2, Timeline::new(0, 10000)));
    showdown.offer(offer);
    let modification = RollModification {
        origin: ModificationOrigin::FromPlayer(1, ModifierKinds::Plus4),
        amount: 4,
    };
    assert!(showdown.add_modification(ModificationPath::Roll, modification).is_err());
    assert!(showdown.add_modification(ModificationPath::Challenger, modification).is_err());
    assert_eq!(showdown.show_down_type, ShowDownType::OfferChallenges);
}

#[test]
fn modifying_a_roll_needs_a_roll() {
    let mut context = GameBookKeeping::new();
    let mut game = game_with_players(2);
    let task = PlayerTask::ModifyRoll(ModifyRollTask {
        modification: RollModification { origin: ModificationOrigin::FromBuff(EffectOrigin::FromItem), amount: 1 },
        path: ModificationPath::Roll,
    });
    assert!(task.make_progress(&mut context, &mut game, 0).is_err());
}

#[test]
fn a_showdown_is_taken_once_its_period_is_over() {
    let mut showdown = CurrentShowdown::new();
    assert!(showdown.take_complete_at(0).is_none());
    let mut offer = OfferChallengesState::new(0, consequences(), reason());
    offer.completion_tracker = Some(CompletionTracker::new(2, Timeline::new(1000, 500)));
    showdown.offer(offer);
    assert!(showdown.take_complete_at(1499).is_none());
    assert_eq!(showdown.show_down_type, ShowDownType::OfferChallenges);
    assert!(showdown.take_complete_at(1500).is_some());
    assert_eq!(showdown.show_down_type, ShowDownType::Nothing);
}

#[test]
fn a_showdown_is_taken_when_everyone_is_done() {
    let mut showdown = CurrentShowdown::new();
    let mut offer = OfferChallengesState::new(0, consequences(), reason());
    let mut tracker = CompletionTracker::new(2, Timeline::new(1000, 500));
    tracker.set_player_completion(0, Completion::AllDone);
    tracker.set_player_completion(1, Completion::DoneUntilModification);
    offer.completion_tracker = Some(tracker);
    showdown.offer(offer);
    assert!(showdown.take_complete_at(0).is_some());
}

#[test]
fn a_modification_needs_a_showdown() {
    let mut showdown = CurrentShowdown::new();
    let modification = RollModification { origin: ModificationOrigin::FromBuff(EffectOrigin::FromItem), amount: 1 };
    assert!(showdown.add_modification(ModificationPath::Roll, modification).is_err());
    assert_eq!(showdown.show_down_type, ShowDownType::Nothing);
}
