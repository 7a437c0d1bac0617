use slay::game_context::GameBookKeeping;
use slay::specification::HeroType;
use slay::specs::cards::SlayCardSpec;
use slay::specs::hero::HeroAbilityType;
use slay::specs::visibility::VisibilitySpec;
use slay::state::deck::DeckSpec;
use slay::state::initialize::{create_state_to_test, deal_into_party, initialize_game, initialize_game_to_random_state};
use slay::state::{Card, Deck, DeckPath, Game, Player, Stack};
use slay::state_modifiers::{deal, replentish};
use slay::tasks::{MoveCardTask, PlayerTask, TaskParamName};

fn hero(id: u32) -> Stack {
    Stack::new(Card::new(id, SlayCardSpec::HeroCard(HeroAbilityType::BadAxe)))
}

fn deck_of(path: DeckPath, ids: &[u32]) -> Deck {
    let mut deck = Deck::new(DeckSpec { visibility: VisibilitySpec::visible(), path });
    for id in ids {
        deck.add(hero(*id));
    }
    deck
}

fn top_ids(deck: &Deck) -> Vec<u32> {
    deck.tops().iter().map(|c| c.id).collect()
}

fn game_with_two_players() -> Game {
    let mut game = Game::new();
    for index in 0..2usize {
        let leader = Card::new(100 + index as u32, SlayCardSpec::PartyLeader(HeroType::Bard));
        game.players.push(Player::new(format!("player {}", index), index, leader));
    }
    game
}

#[test]
fn a_new_game_is_empty() {
    let game = Game::new();
    assert_eq!(game.number_of_players(), 0);
    assert_eq!(game.draw.num_top_cards(), 0);
    assert_eq!(game.discard.num_top_cards(), 0);
    assert_eq!(game.active_player_index(), 0);
}

#[test]
fn starting_a_game_deals_five_cards_to_four_players() {
    let mut context = GameBookKeeping::new();
    let mut game = Game::new();
    initialize_game(&mut context, &mut game);
    assert_eq!(game.number_of_players(), 4);
    assert_eq!(game.monsters.num_top_cards(), 3);
    for (index, player) in game.players.iter().enumerate() {
        assert_eq!(player.player_index, index);
        assert_eq!(player.hand.num_top_cards(), 5);
        assert_eq!(player.party.num_top_cards(), 0);
    }
    let active = game.active_player_index();
    assert!(active < 4);
    assert_eq!(game.players[active].remaining_action_points, 3);
}

#[test]
fn moving_a_card_takes_it_to_the_bottom_of_the_destination() {
    let mut game = game_with_two_players();
    game.players[0].hand.add(hero(1));
    game.players[0].hand.add(hero(2));
    game.players[1].party.add(hero(3));
    assert!(game.move_card(DeckPath::Hand(0), DeckPath::Party(1), 1).is_ok());
    assert_eq!(top_ids(&game.players[0].hand), vec![2]);
    assert_eq!(top_ids(&game.players[1].party), vec![3, 1]);
}

#[test]
fn moving_a_missing_card_fails_and_changes_nothing() {
    let mut game = game_with_two_players();
    game.players[0].hand.add(hero(1));
    assert!(game.move_card(DeckPath::Hand(0), DeckPath::Discard, 9).is_err());
    assert_eq!(top_ids(&game.players[0].hand), vec![1]);
    assert_eq!(game.discard.num_top_cards(), 0);
}

#[test]
fn finding_a_card_looks_in_every_deck() {
    let mut game = game_with_two_players();
    game.players[1].party.add(hero(7));
    game.discard.add(hero(8));
    assert_eq!(game.find_card(7).map(|c| c.id), Some(7));
    assert_eq!(game.find_card(8).map(|c| c.id), Some(8));
    assert!(game.find_card(9).is_none());
}

#[test]
fn replentishing_puts_the_discard_pile_under_a_short_draw_pile() {
    let mut game = Game::new();
    game.draw.add(hero(1));
    game.discard.add(hero(2));
    game.discard.add(hero(3));
    game.replentish_for(1);
    assert_eq!(top_ids(&game.draw), vec![1]);
    assert_eq!(top_ids(&game.discard), vec![2, 3]);
    game.replentish_for(2);
    assert_eq!(top_ids(&game.draw), vec![1, 2, 3]);
    assert_eq!(game.discard.num_top_cards(), 0);
}

#[test]
fn deck_labels_name_the_player() {
    assert_eq!(DeckPath::Hand(3).get_label(), "Player 3's hand");
    assert_eq!(DeckPath::Party(12).get_label(), "Player 12's party");
    assert_eq!(DeckPath::SlainMonsters(0).get_label(), "Player 0's monsters");
    assert_eq!(DeckPath::Draw.get_label(), "Draw pile");
}

#[test]
fn dealing_moves_the_first_stacks_in_order() {
    let mut source = deck_of(DeckPath::Draw, &[1, 2, 3]);
    let mut destination = deck_of(DeckPath::Hand(0), &[9]);
    deal(&mut source, &mut destination, 2);
    assert_eq!(top_ids(&source), vec![3]);
    assert_eq!(top_ids(&destination), vec![9, 1, 2]);
}

#[test]
fn replentish_refills_from_the_third_deck() {
    let mut source = deck_of(DeckPath::Draw, &[1]);
    let mut destination = deck_of(DeckPath::Hand(0), &[]);
    let mut refill = deck_of(DeckPath::Discard, &[2, 3, 4]);
    replentish(&mut source, &mut destination, &mut refill, 3);
    assert_eq!(top_ids(&destination), vec![1, 2, 3]);
    assert_eq!(top_ids(&source), vec![4]);
    assert_eq!(refill.num_top_cards(), 0);
}

#[test]
fn replentish_stops_when_every_deck_is_empty() {
    let mut source = deck_of(DeckPath::Draw, &[1]);
    let mut destination = deck_of(DeckPath::Hand(0), &[]);
    let mut refill = deck_of(DeckPath::Discard, &[2]);
    replentish(&mut source, &mut destination, &mut refill, 5);
    assert_eq!(top_ids(&destination), vec![1, 2]);
    assert_eq!(source.num_top_cards(), 0);
}

#[test]
fn players_with_stacks_lists_non_empty_parties() {
    let mut game = game_with_two_players();
    assert!(game.players_with_stacks().is_empty());
    game.players[1].party.add(hero(4));
    assert_eq!(game.players_with_stacks(), vec![1]);
}

#[test]
fn turns_pass_from_player_to_player() {
    let mut game = game_with_two_players();
    assert_eq!(game.active_player_index(), 0);
    game.increment();
    assert_eq!(game.active_player_index(), 1);
    game.increment();
    assert_eq!(game.active_player_index(), 0);
}

#[test]
fn cards_and_stacks_are_summarized_with_their_ids() {
    let card = Card::new(7, SlayCardSpec::HeroCard(HeroAbilityType::BadAxe));
    assert_eq!(card.summary(), "(7) Bad Axe");
    let mut stack = Stack::new(card);
    assert_eq!(stack.summary(), "[(7) Bad Axe 0], ");
    stack.modifiers.push(Card::new(8, SlayCardSpec::Challenge));
    assert_eq!(stack.summary(), "[(7) Bad Axe 1], ");
}

#[test]
fn a_long_deck_summary_shows_its_ends() {
    let short = deck_of(DeckPath::Draw, &[1, 2]);
    assert_eq!(short.summary(1), "  Draw pile: [(1) Bad Axe 0], [(2) Bad Axe 0], \n");
    let long = deck_of(DeckPath::Discard, &[1, 2, 3, 4, 5, 6, 7, 8, 9]);
    let expected = format!(
        "Discard pile: {}...  {}\n",
        (1..=4).map(|i| format!("[({}) Bad Axe 0], ", i)).collect::<String>(),
        (6..=9).map(|i| format!("[({}) Bad Axe 0], ", i)).collect::<String>()
    );
    assert_eq!(long.summary(0), expected);
}

#[test]
fn a_player_summary_lists_the_three_decks() {
    let game = game_with_two_players();
    assert_eq!(
        game.players[1].summary(0),
        "player 1\n  Player 1's hand: \n  Player 1's party: \n  Player 1's monsters: \n"
    );
}

#[test]
fn the_shared_decks_can_be_changed_in_place() {
    let mut game = Game::new();
    {
        let decks = game.decks_mut();
        let [draw, discard, _, _, next_monsters] = decks;
        draw.add(hero(1));
        discard.add(hero(2));
        next_monsters.add(hero(3));
    }
    assert_eq!(top_ids(&game.draw), vec![1]);
    assert_eq!(top_ids(&game.discard), vec![2]);
    assert_eq!(top_ids(&game.next_monsters), vec![3]);
    assert_eq!(game.decks()[0].num_top_cards(), 1);
}

#[test]
fn a_players_decks_can_be_changed_in_place() {
    let mut game = game_with_two_players();
    {
        let [hand, _, slain] = game.players[0].decks_mut();
        hand.add(hero(5));
        slain.add(hero(6));
    }
    assert_eq!(top_ids(&game.players[0].hand), vec![5]);
    assert_eq!(top_ids(&game.players[0].slain_monsters), vec![6]);
    assert_eq!(game.players[0].party.num_top_cards(), 0);
}

#[test]
fn a_random_game_gives_each_player_a_few_cards() {
    for _ in 0..20 {
        let mut context = GameBookKeeping::new();
        let mut game = Game::new();
        initialize_game_to_random_state(&mut context, &mut game);
        assert_eq!(game.number_of_players(), 4);
        assert_eq!(game.monsters.num_top_cards(), 3);
        for (index, player) in game.players.iter().enumerate() {
            assert_eq!(player.player_index, index);
            assert!(player.hand.num_top_cards() <= 9);
            assert!(player.party.num_top_cards() <= 9);
            assert!(player.slain_monsters.num_top_cards() <= 2);
            assert!(player.hero_types().len() < 6);
        }
        assert!(game.active_player_index() < 4);
    }
}

#[test]
fn a_test_state_gives_player_zero_the_card() {
    let mut context = GameBookKeeping::new();
    let mut game = Game::new();
    let card = SlayCardSpec::HeroCard(HeroAbilityType::Hook);
    create_state_to_test(&mut context, &mut game, &card);
    assert_eq!(game.active_player_index(), 0);
    let hand = game.players[0].hand.tops();
    assert_eq!(hand.last().unwrap().card_type, card);
    let party = game.players[0].party.tops();
    assert_eq!(party.last().unwrap().card_type, card);
}

#[test]
fn the_draw_pile_is_shuffled() {
    let order = |game: &Game| game.draw.tops().iter().map(|c| c.card_type).collect::<Vec<_>>();
    let mut context = GameBookKeeping::new();
    let mut first = Game::new();
    initialize_game(&mut context, &mut first);
    let mut second = Game::new();
    initialize_game(&mut context, &mut second);
    assert_eq!(first.draw.num_top_cards(), second.draw.num_top_cards());
    assert_ne!(order(&first), order(&second));
}

#[test]
fn a_player_sees_their_own_hand_only() {
    let mut context = GameBookKeeping::new();
    let mut game = Game::new();
    initialize_game(&mut context, &mut game);
    let view = game.to_player_perspective(Some(1));
    assert_eq!(view.players.len(), 4);
    assert!(view.players[1].decks[0].stacks.is_some());
    assert_eq!(view.players[1].decks[0].stacks.as_ref().unwrap().len(), 5);
    assert!(view.players[0].decks[0].stacks.is_none());
    assert_eq!(view.players[0].decks[0].count, 5);
    assert_eq!(view.decks[2].stacks.as_ref().unwrap().len(), 3);
    assert!(view.decks[0].stacks.is_none());
    let spectator = game.to_player_perspective(None);
    assert!(spectator.players.iter().all(|p| p.decks[0].stacks.is_none()));
}

#[test]
fn reading_a_missing_parameter_fails() {
    let mut game = game_with_two_players();
    assert!(game.player_param(0, &TaskParamName::PlayerToStealFrom).is_err());
    assert!(game.card_param(0, &TaskParamName::CardToSteal).is_err());
    assert!(game.players[0].tasks.set_player_value(TaskParamName::PlayerToStealFrom, 1).is_ok());
    assert_eq!(game.player_param(0, &TaskParamName::PlayerToStealFrom).unwrap(), 1);
    assert!(game.player_param(1, &TaskParamName::PlayerToStealFrom).is_err());
}

#[test]
fn moving_a_card_through_a_missing_deck_fails() {
    let mut context = GameBookKeeping::new();
    let mut game = game_with_two_players();
    game.players[0].hand.add(hero(1));
    let task = PlayerTask::MoveCard(MoveCardTask { source: DeckPath::Hand(0), destination: DeckPath::Party(5), card_id: 1 });
    assert!(task.make_progress(&mut context, &mut game, 0).is_err());
    assert_eq!(top_ids(&game.players[0].hand), vec![1]);
    let task = PlayerTask::MoveCard(MoveCardTask { source: DeckPath::Hand(0), destination: DeckPath::Party(1), card_id: 1 });
    assert!(task.make_progress(&mut context, &mut game, 0).is_ok());
    assert_eq!(top_ids(&game.players[1].party), vec![1]);
}

#[test]
fn dealing_into_a_party_takes_cards_from_the_top() {
    let mut game = game_with_two_players();
    game.draw.add(hero(1));
    game.draw.add(hero(2));
    game.draw.add(hero(3));
    deal_into_party(&mut game, 0, 2);
    assert_eq!(top_ids(&game.players[0].party), vec![1, 2]);
    assert_eq!(top_ids(&game.draw), vec![3]);
    deal_into_party(&mut game, 0, 5);
    assert_eq!(top_ids(&game.players[0].party), vec![1, 2, 3]);
    assert_eq!(game.draw.num_top_cards(), 0);
}

#[test]
fn recording_oneself_twice_fails() {
    let mut context = GameBookKeeping::new();
    let mut game = game_with_two_players();
    let task = PlayerTask::SetParameterToMyself(TaskParamName::PlayerToStealFrom);
    assert!(task.make_progress(&mut context, &mut game, 1).is_ok());
    assert!(task.make_progress(&mut context, &mut game, 1).is_err());
    assert!(PlayerTask::ClearParams.make_progress(&mut context, &mut game, 1).is_ok());
    assert!(PlayerTask::Steal.make_progress(&mut context, &mut game, 1).is_err());
}

#[test]
fn moving_an_equipped_item_takes_it_alone() {
    let mut game = game_with_two_players();
    let mut equipped = hero(1);
    equipped.modifiers.push(Card::new(2, SlayCardSpec::Challenge));
    game.players[0].party.add(equipped);
    assert!(game.move_card(DeckPath::Party(0), DeckPath::Hand(0), 2).is_ok());
    assert_eq!(top_ids(&game.players[0].party), vec![1]);
    assert!(game.players[0].party.stacks[0].modifiers.is_empty());
    assert_eq!(top_ids(&game.players[0].hand), vec![2]);
}

#[test]
fn a_test_state_for_a_monster_puts_it_in_two_places() {
    let mut context = GameBookKeeping::new();
    let mut game = Game::new();
    let card = SlayCardSpec::MonsterCard(slay::specs::monster::Monster::Orthus);
    create_state_to_test(&mut context, &mut game, &card);
    let slain = game.players[0].slain_monsters.tops();
    let active = game.monsters.tops();
    assert_eq!(slain.last().unwrap().card_type, card);
    assert_eq!(active.last().unwrap().card_type, card);
    assert_ne!(slain.last().unwrap().id, active.last().unwrap().id);
    assert_eq!(game.players[0].name, "Henry (Player 1)");
}
