use slay::state::status_effects::PlayerStatusEffects;
use slay::state::turn::Turn;
use slay::status_effects::effect::PlayerStatusEffect;
use slay::status_effects::effect_entry::EffectOrigin;
use slay::status_effects::temp_effect::EffectDuration;

#[test]
fn turns_cycle_through_the_players() {
    let mut turn = Turn::default();
    assert_eq!(turn.active_player_index(), 0);
    turn.increment(3);
    assert_eq!(turn.active_player_index(), 1);
    turn.increment(3);
    assert_eq!(turn.active_player_index(), 2);
    turn.increment(3);
    assert_eq!(turn.active_player_index(), 0);
}

#[test]
fn an_effect_for_this_turn_expires_with_the_turn() {
    let mut turn = Turn::default();
    let mut effects = PlayerStatusEffects::new();
    effects.add_buff(turn.for_this_turn(), PlayerStatusEffect::AddToAllRolls(2), EffectOrigin::FromHeroAbility);
    effects.clear_expired_modifiers(&turn);
    assert!(effects.has_player_effect(PlayerStatusEffect::AddToAllRolls(2)));
    turn.increment(2);
    effects.clear_expired_modifiers(&turn);
    assert!(!effects.has_player_effect(PlayerStatusEffect::AddToAllRolls(2)));
}

#[test]
fn an_effect_until_next_turn_lasts_until_that_turn() {
    let mut turn = Turn::default();
    let mut effects = PlayerStatusEffects::new();
    let duration = turn.until_next_turn();
    assert_eq!(duration, EffectDuration::UntilNextTurn(1, 0));
    effects.add_buff(duration, PlayerStatusEffect::ExtraActionPoint, EffectOrigin::FromSlainMonster);
    // In a two player game, the other player's turn comes first.
    turn.increment(2);
    effects.clear_expired_modifiers(&turn);
    assert!(effects.has_player_effect(PlayerStatusEffect::ExtraActionPoint));
    // Then the owner's next turn begins, and the effect is over.
    turn.increment(2);
    effects.clear_expired_modifiers(&turn);
    assert!(!effects.has_player_effect(PlayerStatusEffect::ExtraActionPoint));
}

#[test]
fn until_next_turn_counts_from_the_owners_seat() {
    let mut turn = Turn::default();
    turn.set_active_player(1);
    let duration = turn.until_next_turn();
    turn.increment(4);
    assert!(turn.still_active(&duration));
    for _ in 0..3 {
        turn.increment(4);
    }
    assert_eq!(turn.active_player_index(), 1);
    assert!(!turn.still_active(&duration));
}

#[test]
fn player_effects_keep_their_order() {
    let turn = Turn::default();
    let mut effects = PlayerStatusEffects::new();
    effects.add_buff(turn.for_this_turn(), PlayerStatusEffect::AddToAllRolls(1), EffectOrigin::FromItem);
    effects.add_buff(turn.for_this_turn(), PlayerStatusEffect::DrawOnModify, EffectOrigin::FromItem);
    let entries = effects.player_effects();
    assert_eq!(entries.len(), 2);
    assert_eq!(entries[0].modifier, PlayerStatusEffect::AddToAllRolls(1));
    assert_eq!(entries[1].modifier, PlayerStatusEffect::DrawOnModify);
}
