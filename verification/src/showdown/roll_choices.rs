use vstd::prelude::*;

use crate::choices::{Choice, ChoiceDisplay, ChoiceDisplayType, TasksChoice};
use crate::game_context::GameBookKeeping;
use crate::ids;
use crate::showdown::completion::Completion;
use crate::showdown::roll_modification::{ModificationOrigin, ModificationPath, RollModification, RollModificationChoiceType};
use crate::specs::modifier::ModifierKinds;
use crate::state::deck::DeckPath;
use crate::state::stack::Card;
use crate::tasks::{ChallengeTask, ModifyRollTask, MoveCardTask, PlayerTask};

verus! {

/// The tasks of the option to play a modifier card from the hand on a roll: the card goes
/// to the discard pile, then the roll is modified.
pub open spec fn modify_roll_tasks(
    player_index: ids::PlayerIndex,
    card_id: ids::CardId,
    modifier_kind: ModifierKinds,
    modification_amount: i32,
    modification_path: ModificationPath,
) -> Seq<PlayerTask> {
    seq![
        PlayerTask::MoveCard(MoveCardTask { source: DeckPath::Hand(player_index), destination: DeckPath::Discard, card_id }),
        PlayerTask::ModifyRoll(ModifyRollTask {
            modification: RollModification {
                origin: ModificationOrigin::FromPlayer(player_index, modifier_kind),
                amount: modification_amount,
            },
            path: modification_path,
        }),
    ]
}

/// Whether `choice` is the option to play the modifier card from the hand on a roll.
pub open spec fn is_modify_roll_choice(
    choice: TasksChoice,
    player_index: ids::PlayerIndex,
    card_id: ids::CardId,
    modifier_kind: ModifierKinds,
    modification_amount: i32,
    modification_path: ModificationPath,
) -> bool {
    &&& choice.choice == Choice::Modify(modification_path, modifier_kind, modification_amount)
    &&& choice.display == (ChoiceDisplay {
        display_type: ChoiceDisplayType::Modify(
            RollModificationChoiceType::spec_from_card(modifier_kind, modification_amount, modification_path),
        ),
        represents: None,
    })
    &&& choice.tasks@ == modify_roll_tasks(player_index, card_id, modifier_kind, modification_amount, modification_path)
}

/// The option to play a modifier card from the hand on a roll, with a fresh id.
pub fn create_modify_roll_choice(
    context: &mut GameBookKeeping,
    player_index: ids::PlayerIndex,
    card_id: ids::CardId,
    modifier_kind: &ModifierKinds,
    modification_amount: i32,
    modification_path: &ModificationPath,
) -> (r: TasksChoice)
    ensures
        is_modify_roll_choice(r, player_index, card_id, *modifier_kind, modification_amount, *modification_path),
        r.choice_id as int == (old(context).id_generator.last_id() + 1) % 0x1_0000_0000,
        final(context).id_generator.last_id() == r.choice_id,
{
    let choice_id = context.id_generator.generate();
    TasksChoice::new(
        choice_id,
        Choice::Modify(*modification_path, *modifier_kind, modification_amount),
        ChoiceDisplayType::Modify(RollModificationChoiceType::from_card(modifier_kind, modification_amount, *modification_path)),
        vec![
            PlayerTask::MoveCard(MoveCardTask { source: DeckPath::Hand(player_index), destination: DeckPath::Discard, card_id }),
            PlayerTask::ModifyRoll(ModifyRollTask::new(
                RollModification { origin: ModificationOrigin::FromPlayer(player_index, *modifier_kind), amount: modification_amount },
                *modification_path,
            )),
        ],
    )
}

/// Whether `choice` is the option to challenge with the card from the hand.
pub open spec fn is_challenge_choice(choice: TasksChoice, player_index: ids::PlayerIndex, id: ids::ChoiceId, challenge_card: Card) -> bool {
    &&& choice.choice_id == id
    &&& choice.choice == Choice::Challenge
    &&& choice.display == (ChoiceDisplay { display_type: ChoiceDisplayType::Challenge(challenge_card.card_type), represents: None })
    &&& choice.tasks@ == seq![
        PlayerTask::MoveCard(MoveCardTask {
            source: DeckPath::Hand(player_index),
            destination: DeckPath::Discard,
            card_id: challenge_card.id,
        }),
        PlayerTask::Challenge(ChallengeTask {}),
    ]
}

/// The option to challenge with a challenge card from the hand: the card goes to the
/// discard pile, then the challenge begins.
pub fn create_challenge_choice(player_index: ids::PlayerIndex, id: ids::ChoiceId, challenge_card: &Card) -> (r: TasksChoice)
    ensures
        is_challenge_choice(r, player_index, id, *challenge_card),
{
    TasksChoice::new(
        id,
        Choice::Challenge,
        ChoiceDisplayType::Challenge(challenge_card.card_type),
        vec![
            PlayerTask::MoveCard(MoveCardTask {
                source: DeckPath::Hand(player_index),
                destination: DeckPath::Discard,
                card_id: challenge_card.id,
            }),
            PlayerTask::Challenge(ChallengeTask::new()),
        ],
    )
}

/// Whether `choice` is the option to say how far one is done with a showdown.
pub open spec fn is_completion_choice(choice: TasksChoice, id: ids::ChoiceId, completion: Completion) -> bool {
    &&& choice.choice_id == id
    &&& choice.choice == Choice::SetCompletion(completion)
    &&& choice.display == (ChoiceDisplay { display_type: ChoiceDisplayType::SetCompletion(completion), represents: None })
    &&& choice.tasks@ == seq![PlayerTask::SetCompletion(completion)]
}

/// The option to be done with the showdown for good.
pub fn create_set_completion_done(id: ids::ChoiceId) -> (r: TasksChoice)
    ensures
        is_completion_choice(r, id, Completion::AllDone),
{
    let mut tasks: Vec<PlayerTask> = Vec::new();
    tasks.push(PlayerTask::SetCompletion(Completion::AllDone));
    TasksChoice::new(id, Choice::SetCompletion(Completion::AllDone), ChoiceDisplayType::SetCompletion(Completion::AllDone), tasks)
}

/// The option to be done with the showdown until someone modifies a roll.
pub fn create_set_completion_until_modification(id: ids::ChoiceId) -> (r: TasksChoice)
    ensures
        is_completion_choice(r, id, Completion::DoneUntilModification),
{
    let mut tasks: Vec<PlayerTask> = Vec::new();
    tasks.push(PlayerTask::SetCompletion(Completion::DoneUntilModification));
    TasksChoice::new(id, Choice::SetCompletion(Completion::DoneUntilModification), ChoiceDisplayType::SetCompletion(Completion::DoneUntilModification), tasks)
}

} // verus!
