use slay::errors::SlayResult;
use slay::tasks::{ChallengeTask, MonsterSlainTask, PlayerTask, PlayerTasks, TaskParamName};

#[test]
fn tasks_come_out_in_the_order_they_went_in() {
    let mut tasks = PlayerTasks::new(vec![PlayerTask::Draw(1), PlayerTask::Draw(2)]);
    assert_eq!(tasks.take_current_task(), Some(PlayerTask::Draw(1)));
    assert_eq!(tasks.take_current_task(), Some(PlayerTask::Draw(2)));
    assert_eq!(tasks.take_current_task(), None);
}

#[test]
fn a_task_put_back_comes_out_first_again() {
    let mut tasks = PlayerTasks::new(vec![PlayerTask::Draw(1), PlayerTask::Draw(2)]);
    let first = tasks.take_current_task().unwrap();
    assert!(tasks.put_current_task_back(first).is_ok());
    assert_eq!(tasks.take_current_task(), Some(PlayerTask::Draw(1)));
}

#[test]
fn putting_back_twice_fails() {
    let mut tasks = PlayerTasks::new(vec![PlayerTask::Draw(1)]);
    let first = tasks.take_current_task().unwrap();
    assert!(tasks.put_current_task_back(first).is_ok());
    let again: SlayResult<()> = tasks.put_current_task_back(PlayerTask::Draw(9));
    assert!(again.is_err());
    assert_eq!(tasks.take_current_task(), Some(PlayerTask::Draw(1)));
    assert_eq!(tasks.take_current_task(), None);
}

#[test]
fn prepended_task_goes_first() {
    let mut tasks = PlayerTasks::new(vec![PlayerTask::Draw(1)]);
    tasks.prepend(PlayerTask::Draw(5));
    assert_eq!(tasks.take_current_task(), Some(PlayerTask::Draw(5)));
    assert_eq!(tasks.take_current_task(), Some(PlayerTask::Draw(1)));
}

#[test]
fn prepend_from_keeps_the_order_of_the_tasks() {
    let mut tasks = PlayerTasks::new(vec![PlayerTask::Draw(1)]);
    let mut more = vec![PlayerTask::Draw(2), PlayerTask::Draw(3)];
    tasks.prepend_from(&mut more);
    assert!(more.is_empty());
    assert_eq!(tasks.take_current_task(), Some(PlayerTask::Draw(2)));
    assert_eq!(tasks.take_current_task(), Some(PlayerTask::Draw(3)));
    assert_eq!(tasks.take_current_task(), Some(PlayerTask::Draw(1)));
}

#[test]
fn tasks_prepended_while_one_is_out_come_before_it() {
    let mut tasks = PlayerTasks::new(vec![PlayerTask::Draw(1), PlayerTask::Draw(2)]);
    let current = tasks.take_current_task().unwrap();
    tasks.prepend(PlayerTask::Draw(7));
    assert!(tasks.put_current_task_back(current).is_ok());
    assert_eq!(tasks.take_current_task(), Some(PlayerTask::Draw(7)));
    assert_eq!(tasks.take_current_task(), Some(PlayerTask::Draw(1)));
    assert_eq!(tasks.take_current_task(), Some(PlayerTask::Draw(2)));
}

#[test]
fn take_from_appends_in_order() {
    let mut tasks = PlayerTasks::new(vec![PlayerTask::Draw(1)]);
    let mut more = vec![PlayerTask::Draw(2), PlayerTask::Draw(3)];
    tasks.take_from(&mut more);
    assert!(more.is_empty());
    assert_eq!(tasks.take_current_task(), Some(PlayerTask::Draw(1)));
    assert_eq!(tasks.take_current_task(), Some(PlayerTask::Draw(2)));
    assert_eq!(tasks.take_current_task(), Some(PlayerTask::Draw(3)));
}

#[test]
fn recorded_values_are_read_back() {
    let mut tasks = PlayerTasks::empty();
    assert_eq!(tasks.get_player_value(&TaskParamName::PlayerToStealFrom), None);
    assert!(tasks.set_player_value(TaskParamName::PlayerToStealFrom, 2).is_ok());
    assert_eq!(tasks.get_player_value(&TaskParamName::PlayerToStealFrom), Some(2));
    assert!(tasks.set_card_value(TaskParamName::CardToSteal, Some(17)).is_ok());
    assert_eq!(tasks.get_card_value(&TaskParamName::CardToSteal), Some(Some(17)));
    assert_eq!(tasks.get_card_value(&TaskParamName::PlayerToStealFrom), None);
}

#[test]
fn overwriting_a_value_fails_but_replaces_it() {
    let mut tasks = PlayerTasks::empty();
    assert!(tasks.set_player_value(TaskParamName::PlayerToPullFrom, 1).is_ok());
    assert!(tasks.set_player_value(TaskParamName::PlayerToPullFrom, 3).is_err());
    assert_eq!(tasks.get_player_value(&TaskParamName::PlayerToPullFrom), Some(3));
}

#[test]
fn clearing_forgets_every_value() {
    let mut tasks = PlayerTasks::empty();
    assert!(tasks.set_player_value(TaskParamName::PlayerToPullFrom, 1).is_ok());
    assert!(tasks.set_card_value(TaskParamName::CardToSteal, None).is_ok());
    tasks.clear_params();
    assert_eq!(tasks.get_player_value(&TaskParamName::PlayerToPullFrom), None);
    assert_eq!(tasks.get_card_value(&TaskParamName::CardToSteal), None);
}

#[test]
fn a_summary_lists_tasks_in_the_order_they_are_kept() {
    let mut tasks = PlayerTasks::new(vec![PlayerTask::Draw(1)]);
    tasks.prepend(PlayerTask::Draw(2));
    tasks.prepend(PlayerTask::Draw(3));
    assert_eq!(
        tasks.summary_tasks(),
        Some(vec![PlayerTask::Draw(2), PlayerTask::Draw(3), PlayerTask::Draw(1)])
    );
}

#[test]
fn a_summary_lists_nothing_without_upcoming_tasks() {
    let mut tasks = PlayerTasks::empty();
    tasks.prepend(PlayerTask::Draw(2));
    assert_eq!(tasks.summary_tasks(), None);
}

#[test]
fn plain_labels_name_the_task() {
    assert_eq!(PlayerTask::Challenge(ChallengeTask::new()).label(), Some("Player is challenging.".to_string()));
    assert_eq!(
        PlayerTask::MonsterSlain(MonsterSlainTask { card_id: 305 }).label(),
        Some("Slay monster card 305.".to_string())
    );
    assert_eq!(PlayerTask::Draw(2).label(), None);
}
