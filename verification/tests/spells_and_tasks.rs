use slay::choices::{Choice, ChoiceDisplayType, Choices, ChoicesType, TasksChoice};
use slay::deadlines::Timeline;
use slay::game_context::GameBookKeeping;
use slay::showdown::completion::Completion;
use slay::specification::HeroType;
use slay::specs::cards::SlayCardSpec;
use slay::specs::hero::HeroAbilityType;
use slay::specs::items::{AnotherItemType, Item};
use slay::specs::magic::MagicSpell;
use slay::state::{Card, Game, Player, Stack};
use slay::status_effects::effect::PlayerStatusEffect;
use slay::strategy::pick_a_random_choice;
use slay::tasks::{continue_tasks, PlayerTask, TaskProgressResult};

fn hero(id: u32) -> Stack {
    Stack::new(Card::new(id, SlayCardSpec::HeroCard(HeroAbilityType::BadAxe)))
}

fn game_with_players(n: usize) -> Game {
    let mut game = Game::new();
    for index in 0..n {
        let leader = Card::new(100 + index as u32, SlayCardSpec::PartyLeader(HeroType::Thief));
        game.players.push(Player::new(format!("player {}", index), index, leader));
    }
    game
}

fn hand_ids(game: &Game, player: usize) -> Vec<u32> {
    game.players[player].hand.tops().iter().map(|c| c.id).collect()
}

fn one_option(choice_id: u32) -> Choices {
    Choices {
        choices_type: ChoicesType::ModifyRoll,
        default_choice: Some(choice_id),
        timeline: Timeline::new(0, 1000),
        options: vec![TasksChoice::new(
            choice_id,
            Choice::SetCompletion(Completion::AllDone),
            ChoiceDisplayType::SetCompletion(Completion::AllDone),
            vec![],
        )],
    }
}

#[test]
fn picking_fails_when_nobody_has_options() {
    let mut context = GameBookKeeping::new();
    let mut game = game_with_players(2);
    assert!(pick_a_random_choice(&mut context, &mut game).is_err());
}

#[test]
fn picking_finds_the_only_option() {
    let mut context = GameBookKeeping::new();
    let mut game = game_with_players(3);
    game.players[2].choices = Some(one_option(31));
    assert_eq!(pick_a_random_choice(&mut context, &mut game).unwrap(), (2, 31));
}

#[test]
fn picking_takes_one_of_the_offered_options() {
    let mut context = GameBookKeeping::new();
    let mut game = game_with_players(2);
    game.players[0].choices = Some(one_option(5));
    game.players[1].choices = Some(one_option(6));
    for _ in 0..20 {
        let pick = pick_a_random_choice(&mut context, &mut game).unwrap();
        assert!(pick == (0, 5) || pick == (1, 6));
    }
}

#[test]
fn the_enchanted_spell_adds_two_to_rolls() {
    let mut context = GameBookKeeping::new();
    let mut game = game_with_players(2);
    let result = MagicSpell::EnchangedSpell.perform_spell(&mut context, &mut game, 1);
    assert_eq!(result.unwrap(), TaskProgressResult::TaskComplete);
    assert!(game.players[1].temporary_buffs.has_player_effect(PlayerStatusEffect::AddToAllRolls(2)));
    assert!(!game.players[0].temporary_buffs.has_player_effect(PlayerStatusEffect::AddToAllRolls(2)));
}

#[test]
fn forceful_winds_return_items_to_their_owners_hands() {
    let mut context = GameBookKeeping::new();
    let mut game = game_with_players(2);
    let mut equipped = hero(1);
    equipped.modifiers.push(Card::new(2, SlayCardSpec::Item(AnotherItemType::NotMask(Item::DecoyDoll))));
    game.players[1].party.add(equipped);
    game.players[1].hand.add(hero(3));
    assert!(MagicSpell::ForcefulWinds.perform_spell(&mut context, &mut game, 0).is_ok());
    assert_eq!(hand_ids(&game, 1), vec![3, 2]);
    let party = game.players[1].party.tops();
    assert_eq!(party.len(), 1);
    assert_eq!(party[0].id, 1);
    assert!(game.players[1].party.stacks[0].modifiers.is_empty());
}

#[test]
fn a_spell_with_tasks_puts_them_first_in_order() {
    let mut context = GameBookKeeping::new();
    let mut game = game_with_players(1);
    game.players[0].tasks.prepend(PlayerTask::ClearParams);
    assert!(MagicSpell::CriticalBoost.perform_spell(&mut context, &mut game, 0).is_ok());
    assert_eq!(game.take_current_task(0), Some(PlayerTask::Draw(3)));
    assert_eq!(game.take_current_task(0), Some(PlayerTask::Discard(1)));
    assert_eq!(game.take_current_task(0), Some(PlayerTask::ClearParams));
    assert_eq!(game.take_current_task(0), None);
}

#[test]
fn continuing_tasks_draws_cards_until_the_queue_is_empty() {
    let mut context = GameBookKeeping::new();
    let mut game = game_with_players(1);
    for id in 1..=4 {
        game.draw.add(hero(id));
    }
    game.players[0].tasks.prepend(PlayerTask::Draw(1));
    game.players[0].tasks.prepend(PlayerTask::Draw(2));
    let result = continue_tasks(&mut context, &mut game, 0);
    assert_eq!(result.unwrap(), TaskProgressResult::ProgressMade);
    assert_eq!(hand_ids(&game, 0), vec![1, 2, 3]);
    assert_eq!(game.draw.num_top_cards(), 1);
    assert_eq!(game.take_current_task(0), None);
}

#[test]
fn continuing_tasks_waits_for_a_pending_decision() {
    let mut context = GameBookKeeping::new();
    let mut game = game_with_players(1);
    game.draw.add(hero(1));
    game.players[0].tasks.prepend(PlayerTask::Draw(1));
    game.players[0].choices = Some(one_option(9));
    let result = continue_tasks(&mut context, &mut game, 0);
    assert_eq!(result.unwrap(), TaskProgressResult::NothingDone);
    assert_eq!(game.players[0].hand.num_top_cards(), 0);
}

#[test]
fn continuing_with_nothing_to_do_does_nothing() {
    let mut context = GameBookKeeping::new();
    let mut game = game_with_players(1);
    let result = continue_tasks(&mut context, &mut game, 0);
    assert_eq!(result.unwrap(), TaskProgressResult::NothingDone);
}

#[test]
fn draw_until_fills_the_hand() {
    let mut context = GameBookKeeping::new();
    let mut game = game_with_players(1);
    for id in 1..=6 {
        game.draw.add(hero(id));
    }
    game.players[0].hand.add(hero(10));
    game.players[0].tasks.prepend(PlayerTask::DrawUntil(3));
    assert!(continue_tasks(&mut context, &mut game, 0).is_ok());
    assert_eq!(hand_ids(&game, 0), vec![10, 1, 2]);
}

#[test]
fn continuing_fails_on_a_task_that_is_not_carried_out() {
    let mut context = GameBookKeeping::new();
    let mut game = game_with_players(1);
    game.players[0].tasks.prepend(PlayerTask::Steal);
    assert!(continue_tasks(&mut context, &mut game, 0).is_err());
}
