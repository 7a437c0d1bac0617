use slay::choices::{Choice, ChoiceDisplayType, Choices, ChoicesType, TasksChoice};
use slay::deadlines::Timeline;
use slay::game_context::GameBookKeeping;
use slay::showdown::completion::{Completion, CompletionTracker};
use slay::showdown::current_showdown::ModificationTask;
use slay::specification::HeroType;
use slay::specs::cards::SlayCardSpec;
use slay::specs::hero::HeroAbilityType;
use slay::specs::monster::Monster;
use slay::state::initialize::initialize_game;
use slay::state::{Card, DeckPath, Game, Player, Stack};
use slay::status_effects::effect::PlayerStatusEffect;
use slay::tasks::{continue_tasks, MonsterSlainTask, PlayerTask, ReceiveModifier, TaskProgressResult};

fn hero(id: u32) -> Stack {
    Stack::new(Card::new(id, SlayCardSpec::HeroCard(HeroAbilityType::BadAxe)))
}

fn monster(id: u32) -> Stack {
    Stack::new(Card::new(id, SlayCardSpec::MonsterCard(Monster::Orthus)))
}

fn game_with_players(n: usize) -> Game {
    let mut game = Game::new();
    for index in 0..n {
        let leader = Card::new(100 + index as u32, SlayCardSpec::PartyLeader(HeroType::Thief));
        game.players.push(Player::new(format!("player {}", index), index, leader));
    }
    game
}

fn ids_of(stacks: Vec<Card>) -> Vec<u32> {
    stacks.iter().map(|c| c.id).collect()
}

fn one_option(choice_id: u32) -> Choices {
    Choices {
        choices_type: ChoicesType::ModifyRoll,
        default_choice: Some(choice_id),
        timeline: Timeline::new(0, 1000),
        options: vec![TasksChoice::new(
            choice_id,
            Choice::SetCompletion(Completion::AllDone),
            ChoiceDisplayType::SetCompletion(Completion::AllDone),
            vec![],
        )],
    }
}

#[test]
fn receiving_a_modifier_adds_it_to_the_player() {
    let mut context = GameBookKeeping::new();
    let mut game = game_with_players(2);
    let task = PlayerTask::ReceiveModifier(ReceiveModifier::new(PlayerStatusEffect::PlayMagicOnDraw));
    assert!(task.make_progress(&mut context, &mut game, 1).is_ok());
    assert!(game.players[1].temporary_buffs.has_player_effect(PlayerStatusEffect::PlayMagicOnDraw));
    assert_eq!(game.players[1].temporary_buffs.player_effects().len(), 1);
    assert!(!game.players[0].temporary_buffs.has_player_effect(PlayerStatusEffect::PlayMagicOnDraw));
}

#[test]
fn slaying_a_monster_deals_the_next_one() {
    let mut context = GameBookKeeping::new();
    let mut game = game_with_players(1);
    game.monsters.add(monster(50));
    game.next_monsters.add(monster(51));
    game.next_monsters.add(monster(52));
    let task = PlayerTask::MonsterSlain(MonsterSlainTask { card_id: 50 });
    assert!(task.make_progress(&mut context, &mut game, 0).is_ok());
    assert_eq!(ids_of(game.players[0].slain_monsters.tops()), vec![50]);
    assert_eq!(ids_of(game.monsters.tops()), vec![51]);
    assert_eq!(ids_of(game.next_monsters.tops()), vec![52]);
}

#[test]
fn continuing_stops_with_an_error_after_earlier_tasks_ran() {
    let mut context = GameBookKeeping::new();
    let mut game = game_with_players(1);
    game.draw.add(hero(1));
    game.draw.add(hero(2));
    game.players[0].tasks.prepend(PlayerTask::Steal);
    game.players[0].tasks.prepend(PlayerTask::Draw(1));
    assert!(continue_tasks(&mut context, &mut game, 0).is_err());
    assert_eq!(ids_of(game.players[0].hand.tops()), vec![1]);
    assert_eq!(game.take_current_task(0), None);
}

#[test]
fn continuing_runs_every_queued_task() {
    let mut context = GameBookKeeping::new();
    let mut game = game_with_players(1);
    game.draw.add(hero(1));
    game.draw.add(hero(2));
    game.players[0].tasks.prepend(PlayerTask::Draw(1));
    game.players[0].tasks.prepend(PlayerTask::Draw(1));
    let result = continue_tasks(&mut context, &mut game, 0);
    assert_eq!(result.unwrap(), TaskProgressResult::ProgressMade);
    assert_eq!(ids_of(game.players[0].hand.tops()), vec![1, 2]);
}

#[test]
fn a_modification_task_gives_each_player_the_last_choices_listed() {
    let mut context = GameBookKeeping::new();
    let mut game = game_with_players(3);
    let task = ModificationTask { choices_to_assign: vec![(0, one_option(1)), (1, one_option(2)), (0, one_option(3))] };
    task.apply(&mut context, &mut game);
    assert_eq!(game.players[0].choices.as_ref().unwrap().default_choice, Some(3));
    assert_eq!(game.players[1].choices.as_ref().unwrap().default_choice, Some(2));
    assert!(game.players[2].choices.is_none());
}

#[test]
fn the_view_hides_another_hand_and_the_draw_pile() {
    let mut context = GameBookKeeping::new();
    let mut game = Game::new();
    initialize_game(&mut context, &mut game);
    let before = format!("{:?}", game.to_player_perspective(Some(0)));
    let from_hand = game.players[1].hand.tops()[0].id;
    assert!(game.move_card(DeckPath::Hand(1), DeckPath::Draw, from_hand).is_ok());
    let from_draw = game.draw.tops()[0].id;
    assert!(game.move_card(DeckPath::Draw, DeckPath::Hand(1), from_draw).is_ok());
    assert_ne!(from_hand, from_draw);
    let after = format!("{:?}", game.to_player_perspective(Some(0)));
    assert_eq!(before, after);
}

#[test]
fn reservoir_sampling_keeps_the_last_option_drawn() {
    let options = vec![(0usize, 1u32), (0, 2), (1, 3), (2, 4)];
    assert_eq!(slay::strategy::keep_drawn(&options, &vec![true, false, true, false]), Some((1, 3)));
    assert_eq!(slay::strategy::keep_drawn(&options, &vec![true, false, false, false]), Some((0, 1)));
    assert_eq!(slay::strategy::keep_drawn(&options, &vec![false, false, false, true]), Some((2, 4)));
    assert_eq!(slay::strategy::keep_drawn(&vec![], &vec![]), None);
}

#[test]
fn the_offered_options_come_player_after_player() {
    let mut game = game_with_players(3);
    game.players[2].choices = Some(one_option(7));
    game.players[0].choices = Some(one_option(5));
    assert_eq!(slay::strategy::list_offered_options(&game), vec![(0, 5), (2, 7)]);
}

#[test]
fn a_tracker_is_complete_once_every_last_update_says_done() {
    let mut tracker = CompletionTracker::new(3, Timeline::new(0, 1000));
    tracker.set_player_completion(0, Completion::AllDone);
    tracker.set_player_completion(1, Completion::DoneUntilModification);
    assert!(!tracker.is_complete_at(10));
    tracker.set_player_completion(2, Completion::AllDone);
    tracker.set_player_completion(1, Completion::Thinking);
    assert!(!tracker.is_complete_at(10));
    tracker.set_player_completion(1, Completion::AllDone);
    assert!(tracker.is_complete_at(10));
    assert_eq!(tracker.completions.len(), 3);
}
