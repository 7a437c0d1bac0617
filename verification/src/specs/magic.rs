use vstd::prelude::*;

use crate::errors::SlayResult;
use crate::game_context::GameBookKeeping;
use crate::ids;
use crate::specs::cards::SlayCardSpec;
use crate::state::deck::all_modifiers;
use crate::state::game::Game;
use crate::state::player::Player;
use crate::state::stack::Card;
use crate::status_effects::effect::PlayerStatusEffect;
use crate::status_effects::effect_entry::{EffectOrigin, PlayerStatusEffectEntry};
use crate::status_effects::temp_effect::{EffectDuration, TemporaryPlayerStatusEffect};
use crate::tasks::{DestroyModifiersDestination, PlayerTask, SearchDiscardFilters, TaskParamName, TaskProgressResult};

verus! {

/// The magic cards.
#[derive(Debug, Clone, Copy, PartialEq, Eq, Structural)]
pub enum MagicSpell {
    EnganglingTrap,
    CriticalBoost,
    DestructiveSpell,
    WindsOfChange,
    EnchangedSpell,
    ForcedExchange,
    ForcefulWinds,
    /// The caster searches the discard pile for a hero: the search goes in front of their
    /// tasks, where it waits for their decision.
    CallToTheFallen,
}

/// The tasks that a spell gives its caster, in the order in which the spell lists them;
/// empty for the spells that act at once.
pub open spec fn spell_tasks(spell: MagicSpell) -> Seq<PlayerTask> {
    match spell {
        MagicSpell::EnganglingTrap => seq![PlayerTask::Discard(2), PlayerTask::Steal],
        MagicSpell::CriticalBoost => seq![PlayerTask::Draw(3), PlayerTask::Discard(1)],
        MagicSpell::DestructiveSpell => seq![PlayerTask::Discard(1), PlayerTask::Destroy],
        MagicSpell::WindsOfChange => seq![PlayerTask::ReturnModifiers, PlayerTask::Draw(1)],
        MagicSpell::ForcedExchange => seq![
            PlayerTask::ChoosePlayer(TaskParamName::ForcedExchangeVictim, Some("Choose a player to forcefully exchange heros with.")),
            PlayerTask::ChooseCardFromParty(
                TaskParamName::ForcedExchangeVictim,
                TaskParamName::ForcedExchangeVictimCard,
                Some("Which hero card would you like to steal?"),
            ),
            PlayerTask::StealCardFrom(TaskParamName::ForcedExchangeVictim, TaskParamName::ForcedExchangeVictimCard),
            PlayerTask::SetParameterToMyself(TaskParamName::ForcedExchangeSelf),
            PlayerTask::ChooseCardFromParty(
                TaskParamName::ForcedExchangeSelf,
                TaskParamName::ForcedExchangeVictimDonationCard,
                Some("Which hero card would you like to move to their hand?"),
            ),
            PlayerTask::UnStealCardFrom(TaskParamName::ForcedExchangeSelf, TaskParamName::ForcedExchangeVictimDonationCard),
            PlayerTask::ClearParams,
        ],
        MagicSpell::CallToTheFallen => seq![PlayerTask::SearchDiscard(SearchDiscardFilters::IsHero)],
        MagicSpell::EnchangedSpell => Seq::empty(),
        MagicSpell::ForcefulWinds => Seq::empty(),
    }
}

/// Whether the spell gives its caster tasks (the others act at once).
pub open spec fn gives_tasks(spell: MagicSpell) -> bool {
    spell != MagicSpell::EnchangedSpell && spell != MagicSpell::ForcefulWinds
}

/// Whether `after` is `before` once every item equipped to a hero has gone back, alone, to
/// the hand of the player whose party it was in.
pub open spec fn items_returned(before: Game, after: Game) -> bool {
    &&& after.same_except_players(before)
    &&& after.players@.len() == before.players@.len()
    &&& forall|i: int| 0 <= i < before.players@.len() ==> {
        let old_player = #[trigger] before.players@[i];
        let new_player = after.players@[i];
        let returned = all_modifiers(old_player.party@);
        &&& new_player == (Player { hand: new_player.hand, party: new_player.party, ..old_player })
        &&& new_player.hand.spec == old_player.hand.spec
        &&& new_player.party.spec == old_player.party.spec
        &&& new_player.party@.len() == old_player.party@.len()
        &&& forall|k: int| 0 <= k < old_player.party@.len() ==> (#[trigger] new_player.party@[k]).top == old_player.party@[k].top
            && new_player.party@[k].modifiers@ == Seq::<Card>::empty()
        &&& new_player.hand@.len() == old_player.hand@.len() + returned.len()
        &&& forall|k: int| 0 <= k < old_player.hand@.len() ==> #[trigger] new_player.hand@[k] == old_player.hand@[k]
        &&& forall|k: int| 0 <= k < returned.len() ==> (#[trigger] new_player.hand@[old_player.hand@.len() + k]).top == returned[k]
            && new_player.hand@[old_player.hand@.len() + k].modifiers@ == Seq::<Card>::empty()
    }
}

impl MagicSpell {
    pub fn label(&self) -> (r: &'static str)
        ensures
            r@ == SlayCardSpec::MagicCard(*self).spec_label(),
    {
        SlayCardSpec::MagicCard(*self).label()
    }

    fn create_tasks(&self) -> (r: Vec<PlayerTask>)
        ensures
            r@ == spell_tasks(*self),
    {
        let mut tasks: Vec<PlayerTask> = Vec::new();
        match self {
            MagicSpell::EnganglingTrap => {
                tasks.push(PlayerTask::Discard(2));
                tasks.push(PlayerTask::Steal);
            },
            MagicSpell::CriticalBoost => {
                tasks.push(PlayerTask::Draw(3));
                tasks.push(PlayerTask::Discard(1));
            },
            MagicSpell::DestructiveSpell => {
                tasks.push(PlayerTask::Discard(1));
                tasks.push(PlayerTask::Destroy);
            },
            MagicSpell::WindsOfChange => {
                tasks.push(PlayerTask::ReturnModifiers);
                tasks.push(PlayerTask::Draw(1));
            },
            MagicSpell::ForcedExchange => {
                tasks.push(PlayerTask::ChoosePlayer(TaskParamName::ForcedExchangeVictim, Some("Choose a player to forcefully exchange heros with.")));
                tasks.push(PlayerTask::ChooseCardFromParty(
                    TaskParamName::ForcedExchangeVictim,
                    TaskParamName::ForcedExchangeVictimCard,
                    Some("Which hero card would you like to steal?"),
                ));
                tasks.push(PlayerTask::StealCardFrom(TaskParamName::ForcedExchangeVictim, TaskParamName::ForcedExchangeVictimCard));
                tasks.push(PlayerTask::SetParameterToMyself(TaskParamName::ForcedExchangeSelf));
                tasks.push(PlayerTask::ChooseCardFromParty(
                    TaskParamName::ForcedExchangeSelf,
                    TaskParamName::ForcedExchangeVictimDonationCard,
                    Some("Which hero card would you like to move to their hand?"),
                ));
                tasks.push(PlayerTask::UnStealCardFrom(TaskParamName::ForcedExchangeSelf, TaskParamName::ForcedExchangeVictimDonationCard));
                tasks.push(PlayerTask::ClearParams);
            },
            MagicSpell::CallToTheFallen => {
                tasks.push(PlayerTask::SearchDiscard(SearchDiscardFilters::IsHero));
            },
            MagicSpell::EnchangedSpell => {},
            MagicSpell::ForcefulWinds => {},
        }
        assert(tasks@ =~= spell_tasks(*self));
        tasks
    }

    /// Casts the spell for the player.
    ///
    /// Most spells put their tasks, in order, in front of the caster's tasks.
    /// The enchanted spell adds 2 to every roll of the caster for the rest of the turn; the
    /// forceful winds send every equipped item back to its owner's hand.
    pub fn perform_spell(&self, context: &mut GameBookKeeping, game: &mut Game, player_index: ids::PlayerIndex) -> (r: SlayResult<TaskProgressResult>)
        requires
            *self != MagicSpell::ForcefulWinds ==> player_index < old(game).players@.len(),
        ensures
            r == Ok::<TaskProgressResult, crate::errors::SlayError>(TaskProgressResult::TaskComplete),
            gives_tasks(*self) ==> final(game).changes_queue(
                *old(game),
                player_index,
                spell_tasks(*self) + old(game).players@[player_index as int].tasks.queue(),
            ),
            *self == MagicSpell::EnchangedSpell ==> {
                &&& final(game).same_except_players(*old(game))
                &&& final(game).players@.len() == old(game).players@.len()
                &&& forall|i: int| 0 <= i < old(game).players@.len() && i != player_index ==> #[trigger] final(game).players@[i] == old(game).players@[i]
                &&& final(game).players@[player_index as int] == (Player {
                    temporary_buffs: final(game).players@[player_index as int].temporary_buffs,
                    ..old(game).players@[player_index as int]
                })
                &&& final(game).players@[player_index as int].temporary_buffs@ == old(game).players@[player_index as int].temporary_buffs@.push(
                    TemporaryPlayerStatusEffect {
                        duration: EffectDuration::ForThisTurn(old(game).turn.turn_number()),
                        status_effect: PlayerStatusEffectEntry {
                            modifier: PlayerStatusEffect::AddToAllRolls(2),
                            origin: EffectOrigin::FromMagicCard(MagicSpell::EnchangedSpell),
                        },
                    },
                )
            },
            *self == MagicSpell::ForcefulWinds ==> items_returned(*old(game), *final(game)),
    {
        match self {
            MagicSpell::EnchangedSpell => {
                let duration = game.get_turn().for_this_turn();
                game.players[player_index].temporary_buffs.add_buff(
                    duration,
                    PlayerStatusEffect::AddToAllRolls(2),
                    EffectOrigin::FromMagicCard(*self),
                );
            },
            MagicSpell::ForcefulWinds => {
                let n = game.number_of_players();
                let mut i: usize = 0;
                while i < n
                    invariant
                        i <= n == game.players@.len() == old(game).players@.len(),
                        game.same_except_players(*old(game)),
                        forall|j: int| i <= j < n ==> #[trigger] game.players@[j] == old(game).players@[j],
                        forall|j: int| 0 <= j < i ==> {
                            let old_player = #[trigger] old(game).players@[j];
                            let new_player = game.players@[j];
                            let returned = all_modifiers(old_player.party@);
                            &&& new_player == (Player { hand: new_player.hand, party: new_player.party, ..old_player })
                            &&& new_player.hand.spec == old_player.hand.spec
                            &&& new_player.party.spec == old_player.party.spec
                            &&& new_player.party@.len() == old_player.party@.len()
                            &&& forall|k: int| 0 <= k < old_player.party@.len() ==> (#[trigger] new_player.party@[k]).top == old_player.party@[k].top
                                && new_player.party@[k].modifiers@ == Seq::<Card>::empty()
                            &&& new_player.hand@.len() == old_player.hand@.len() + returned.len()
                            &&& forall|k: int| 0 <= k < old_player.hand@.len() ==> #[trigger] new_player.hand@[k] == old_player.hand@[k]
                            &&& forall|k: int| 0 <= k < returned.len() ==> (#[trigger] new_player.hand@[old_player.hand@.len() + k]).top == returned[k]
                                && new_player.hand@[old_player.hand@.len() + k].modifiers@ == Seq::<Card>::empty()
                        },
                    decreases n - i,
                {
                    let cards = game.players[i].party.strip_modifiers();
                    game.players[i].hand.add_cards(cards);
                    i = i + 1;
                }
            },
            _ => {
                let mut tasks = self.create_tasks();
                game.prepend_tasks(player_index, &mut tasks);
            },
        }
        Ok(TaskProgressResult::TaskComplete)
    }
}

} // verus!
