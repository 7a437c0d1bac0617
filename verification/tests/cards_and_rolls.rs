use slay::showdown::consequences::{Comparison, Condition};
use slay::showdown::roll::Roll;
use slay::showdown::roll_modification::{ModificationOrigin, RollModification};
use slay::specification::{get_card_specs, HeroType, MonsterRequirements};
use slay::specs::cards::SlayCardSpec;
use slay::specs::hero::HeroAbilityType;
use slay::specs::initialization::{all_card_specs, list_cards};
use slay::specs::modifier::ModifierKinds;
use slay::specs::monster::{player_satisfies_requirements, Monster};
use slay::state::player::HeroTypeCounter;
use slay::status_effects::effect_entry::EffectOrigin;
use slay::tasks::{MonsterSlainTask, PlayImmediatelyFilter, PlayerTask, TaskParamName};
use slay::showdown::roll_state::RollReason;
use slay::status_effects::effect::PlayerStatusEffect;
use slay::status_effects::effect_entry::PlayerStatusEffectEntry;

fn counter(leader: HeroType, heroes: &[HeroType]) -> HeroTypeCounter {
    let mut counter = HeroTypeCounter::new();
    for hero_type in heroes {
        counter.add_hero_type(hero_type);
    }
    counter.leader_type = Some(leader);
    counter
}

#[test]
fn cards_have_their_printed_labels() {
    assert_eq!(SlayCardSpec::HeroCard(HeroAbilityType::BadAxe).label(), "Bad Axe");
    assert_eq!(SlayCardSpec::MonsterCard(Monster::AnuranCauldron).label(), "Anuran Cauldron");
    assert_eq!(Monster::Dracos.label(), "Dracos");
    assert_eq!(SlayCardSpec::Challenge.label(), "Challenge");
}

#[test]
fn there_is_a_spec_for_every_listed_card() {
    let listed = list_cards();
    let specs = get_card_specs();
    assert_eq!(specs.len(), listed.len());
    assert_eq!(all_card_specs().len(), listed.len());
    assert_eq!(listed[0], SlayCardSpec::Challenge);
}

#[test]
fn modifier_cards_list_their_amounts() {
    assert_eq!(ModifierKinds::Plus4.list_amounts(), vec![4]);
    assert_eq!(ModifierKinds::Plus1Minus3.list_amounts(), vec![1, -3]);
    assert_eq!(ModifierKinds::Minus4.list_amounts(), vec![-4]);
}

#[test]
fn conditions_compare_with_their_threshold() {
    let at_least_seven = Condition::ge(7);
    assert!(at_least_seven.applies_to(7));
    assert!(!at_least_seven.applies_to(6));
    let at_most_four = Condition::le(4);
    assert_eq!(at_most_four.comparison, Comparison::LE);
    assert!(at_most_four.applies_to(4));
    assert!(!at_most_four.applies_to(5));
}

#[test]
fn a_roll_adds_the_dice_and_the_modifications() {
    let roll = Roll { die1: 3, die2: 5 };
    let modifications = vec![
        RollModification { origin: ModificationOrigin::FromPlayer(1, ModifierKinds::Plus4), amount: 4 },
        RollModification { origin: ModificationOrigin::FromBuff(EffectOrigin::FromItem), amount: -3 },
    ];
    assert_eq!(roll.calculate_total(&modifications), 9);
    assert_eq!(roll.calculate_total(&[]), 8);
}

#[test]
fn a_monster_spec_holds_its_conditions_and_requirements() {
    let spec = Monster::AnuranCauldron.create_spec();
    assert_eq!(spec.consequences.success.condition, Condition::ge(7));
    let loss = spec.consequences.loss.unwrap();
    assert_eq!(loss.condition, Condition::le(6));
    assert_eq!(loss.tasks, vec![PlayerTask::Sacrifice(1)]);
    assert_eq!(spec.requirements.len(), 3);
}

#[test]
fn slaying_a_monster_moves_it_to_the_attacker() {
    let consequences = Monster::TitanWyvern.get_consequences(42);
    assert_eq!(consequences.success.condition, Condition::ge(8));
    assert_eq!(
        consequences.success.tasks,
        vec![PlayerTask::MonsterSlain(MonsterSlainTask { card_id: 42 })]
    );
    assert_eq!(consequences.loss.unwrap().tasks, vec![PlayerTask::Discard(2)]);
}

#[test]
fn the_leader_meets_a_requirement_of_its_class() {
    let mut counts = counter(HeroType::Fighter, &[HeroType::Bard, HeroType::Bard]);
    let mut requirements = vec![MonsterRequirements::HeroType(HeroType::Fighter), MonsterRequirements::Hero];
    assert!(player_satisfies_requirements(&mut counts, &mut requirements));
    assert_eq!(requirements, vec![MonsterRequirements::Hero]);
    assert_eq!(counts.leader_type, None);
}

#[test]
fn a_missing_class_fails_the_requirements() {
    let mut counts = counter(HeroType::Bard, &[HeroType::Wizard]);
    let mut requirements = vec![MonsterRequirements::HeroType(HeroType::Thief), MonsterRequirements::Hero];
    assert!(!player_satisfies_requirements(&mut counts, &mut requirements));
}

#[test]
fn enough_heroes_of_any_class_are_needed() {
    let mut counts = counter(HeroType::Bard, &[HeroType::Wizard]);
    let mut requirements = vec![MonsterRequirements::Hero, MonsterRequirements::Hero];
    // The leader does not count as a hero here, and one wizard is not two heroes.
    assert!(!player_satisfies_requirements(&mut counts, &mut requirements));
    let mut counts = counter(HeroType::Bard, &[HeroType::Wizard, HeroType::Thief, HeroType::Ranger]);
    let mut requirements = vec![MonsterRequirements::Hero, MonsterRequirements::Hero];
    assert!(player_satisfies_requirements(&mut counts, &mut requirements));
}

#[test]
fn the_plus_one_minus_three_modifier_is_labelled_so() {
    assert_eq!(SlayCardSpec::ModifierCard(ModifierKinds::Plus1Minus3).label(), "Modifier +1/-3");
}

#[test]
fn hook_plays_an_item_then_draws() {
    assert_eq!(
        HeroAbilityType::Hook.create_tasks(),
        vec![PlayerTask::Hook(PlayImmediatelyFilter::IsItem), PlayerTask::Draw(1)]
    );
}

#[test]
fn sly_pickings_offers_an_item() {
    let tasks = HeroAbilityType::SlyPickings.create_tasks();
    assert_eq!(
        tasks[2],
        PlayerTask::OfferPlayImmediately(TaskParamName::SlyPickinsCard, PlayImmediatelyFilter::IsItem, 0)
    );
}

#[test]
fn wiggles_steals_the_card_it_chose() {
    let tasks = HeroAbilityType::Wiggles.create_tasks();
    assert_eq!(tasks[0], PlayerTask::ChoosePlayer(TaskParamName::WigglesVictim, None));
    assert_eq!(tasks[1], PlayerTask::ChooseCardFromParty(TaskParamName::WigglesVictim, TaskParamName::WigglesCard, None));
    assert_eq!(tasks[2], PlayerTask::StealCardFrom(TaskParamName::WigglesVictim, TaskParamName::WigglesCard));
}

#[test]
fn the_ranger_leader_adds_to_attack_rolls() {
    let entry = PlayerStatusEffectEntry::new(PlayerStatusEffect::AddToRollForAttack(1), EffectOrigin::FromPartyLeader(HeroType::Ranger));
    assert_eq!(
        entry.create_roll_modification(RollReason::AttackMonster(SlayCardSpec::MonsterCard(Monster::Dracos))),
        Some(RollModification { origin: ModificationOrigin::FromBuff(EffectOrigin::FromPartyLeader(HeroType::Ranger)), amount: 1 })
    );
    assert_eq!(entry.create_roll_modification(RollReason::Challenged), None);
}
