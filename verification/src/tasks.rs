use vstd::prelude::*;

use crate::choices::Choices;
use crate::errors::{SlayError, SlayResult};
use crate::ids;
use crate::modifiers::{ModifierOrigin, PlayerModifier};
use crate::showdown::completion::Completion;
use crate::showdown::roll_modification::{ModificationPath, RollModification};
use crate::specification::HeroType;
use crate::specs::hero::HeroAbilityType;
use crate::state::deck::DeckPath;
use std::collections::HashMap;
use std::collections::VecDeque;

use crate::deadlines::get_challenge_deadline;
use crate::game_context::GameBookKeeping;
use crate::showdown::completion::CompletionTracker;
use crate::showdown::current_showdown::{last_listed_is, listed, ShowDown, ShowDownType};
use crate::showdown::roll_modification::ModificationOrigin;
use crate::state::deck::{modifier_position, top_position};
use crate::state::game::Game;
use crate::state::player::Player;
use crate::state_modifiers::{replenished, replentish};
use crate::state::turn::Turn;

use crate::status_effects::effect_entry::PlayerStatusEffectEntry;
use crate::status_effects::temp_effect::{EffectDuration, TemporaryPlayerStatusEffect};
use crate::text::{decimal, decimal_text};

verus! {

/// The names under which tasks leave values for the tasks that follow them.
#[derive(Debug, PartialEq, Eq, Hash, Clone, Copy, Structural)]
pub enum TaskParamName {
    PlayerToStealFrom,
    CardToSteal,
    PlayerToPullFrom,
    SlipperyPawsVictim,
    SlipperyPawsVictimPulledCard1,
    SlipperyPawsVictimPulledCard2,
    MeowzioVictim,
    MeowzioCard,
    ShurikittyVictim,
    ShurikittyCard,
    SilentShadowVictim,
    SilentShadowCard,
    SlyPickinsVictim,
    SlyPickinsCard,
    PanChuckFirstCard,
    PanChuckSecondCard,
    HeavyBearVictim,
    BearClawVictim,
    BearClawCard,
    FuryKnuckleVictim,
    FuryKnuckleCard,
    QuickDrawCard1,
    QuickDrawCard2,
    SharpFoxVictim,
    TipsyTootieVictim,
    TipsyTootieCard,
    MellowDeeCard,
    LuckBuckyVictim,
    LuckBuckyCard,
    DodgyDealerVictim,
    WigglesVictim,
    WigglesCard,
    SnowballCard,
    ButtonsVictim,
    ButtonsCard,
    HopperVictim,
    ForcedExchangeVictim,
    ForcedExchangeVictimCard,
    ForcedExchangeSelf,
    ForcedExchangeVictimDonationCard,
}

/// Which drawn or pulled cards a player may play at once.
#[derive(Debug, Clone, Copy, PartialEq, Eq, Structural)]
pub enum PlayImmediatelyFilter {
    IsMagic,
    IsHero,
    IsItem,
    IsChallenge,
    /// Any card.
    Anything,
}

/// Which cards a search of the discard pile may take.
#[derive(Debug, Clone, Copy, PartialEq, Eq, Structural)]
pub enum SearchDiscardFilters {
    IsHero,
    IsItem,
    IsMagic,
    IsModifier,
}

/// Where the items equipped to a destroyed hero go.
#[derive(Debug, Clone, Copy, PartialEq, Eq, Structural)]
pub enum DestroyModifiersDestination {
    Myself,
    Discard,
}

/// What a task reports after being given a chance to make progress.
///
/// After `TaskComplete` the task leaves the queue and the next one is tried;
/// after `ProgressMade` the task stays and the next one is tried;
/// after `NothingDone` the task stays and no other task is tried.  The tasks of this
/// library report `TaskComplete` whenever they are carried out (`PlayerTask::make_progress`),
/// and `continue_tasks` reports the run as a whole.
#[derive(Debug, Clone, Copy, PartialEq, Eq, Structural)]
pub enum TaskProgressResult {
    NothingDone,
    ProgressMade,
    TaskComplete,
}

/// Moves a card (with whatever is stacked on it) from one deck to another.
#[derive(Debug, Clone, Copy, PartialEq, Eq, Structural)]
pub struct MoveCardTask {
    pub source: DeckPath,
    pub destination: DeckPath,
    pub card_id: ids::CardId,
}

/// How long a received status effect lasts.
#[derive(Debug, Clone, Copy, PartialEq, Eq, Structural)]
pub enum ReceiveDuration {
    ForThisTurn,
    UntilNextTurn,
}

/// Gives the player a temporary status effect.
#[derive(Debug, Clone, Copy, PartialEq, Eq, Structural)]
pub struct ReceiveModifier {
    pub modifier: PlayerModifier,
    pub origin: ModifierOrigin,
    pub duration: ReceiveDuration,
}

impl ReceiveModifier {
    /// The effect, granted by a hero's ability, for the rest of this turn.
    pub fn new(modifier: PlayerModifier) -> (r: Self)
        ensures
            r == (ReceiveModifier { modifier, origin: ModifierOrigin::FromHeroAbility, duration: ReceiveDuration::ForThisTurn }),
    {
        Self { modifier, origin: ModifierOrigin::FromHeroAbility, duration: ReceiveDuration::ForThisTurn }
    }

    pub fn for_this_turn(modifier: PlayerModifier, origin: ModifierOrigin) -> (r: Self)
        ensures
            r == (ReceiveModifier { modifier, origin, duration: ReceiveDuration::ForThisTurn }),
    {
        Self { modifier, origin, duration: ReceiveDuration::ForThisTurn }
    }

    pub fn until_next_turn(modifier: PlayerModifier, origin: ModifierOrigin) -> (r: Self)
        ensures
            r == (ReceiveModifier { modifier, origin, duration: ReceiveDuration::UntilNextTurn }),
    {
        Self { modifier, origin, duration: ReceiveDuration::UntilNextTurn }
    }
}

/// Uses a hero's ability: its tasks are put before the player's other tasks.
#[derive(Debug, Clone, Copy, PartialEq, Eq, Structural)]
pub struct UseAbilityTask {
    pub ability: HeroAbilityType,
}

/// Moves a defeated monster into the player's slain monsters and reveals the next one.
#[derive(Debug, Clone, Copy, PartialEq, Eq, Structural)]
pub struct MonsterSlainTask {
    pub card_id: ids::CardId,
}

/// Turns the current offer to challenge into a challenge by this player.
#[derive(Debug, Clone, Copy, PartialEq, Eq, Structural)]
pub struct ChallengeTask {}

impl ChallengeTask {
    pub fn new() -> (r: Self)
        ensures
            r == (ChallengeTask {}),
    {
        Self {}
    }
}

/// Applies a modification to the current roll or challenge.
#[derive(Debug, Clone, Copy, PartialEq, Eq, Structural)]
pub struct ModifyRollTask {
    pub modification: RollModification,
    pub path: ModificationPath,
}

impl ModifyRollTask {
    pub fn new(modification: RollModification, path: ModificationPath) -> (r: Self)
        ensures
            r == (ModifyRollTask { modification, path }),
    {
        Self { modification, path }
    }
}

/// Something a player has to do, possibly over several steps.
#[derive(Debug, Clone, Copy, PartialEq, Eq)]
pub enum PlayerTask {
    MoveCard(MoveCardTask),
    ReceiveModifier(ReceiveModifier),
    UseAbility(UseAbilityTask),
    MonsterSlain(MonsterSlainTask),
    Challenge(ChallengeTask),
    ModifyRoll(ModifyRollTask),
    SetCompletion(Completion),
    /// Draw this many cards.
    Draw(u32),
    /// Draw until the hand holds this many cards.
    DrawUntil(u32),
    /// Draw a card and record it under the name.
    DrawIntoParam(TaskParamName),
    /// The player recorded under the name draws a card.
    VictimDraws(TaskParamName),
    /// Choose another player and record them under the name.
    ChoosePlayer(TaskParamName, Option<&'static str>),
    /// Choose a card in the party of the player recorded under the first name; record it under the second.
    ChooseCardFromParty(TaskParamName, TaskParamName, Option<&'static str>),
    /// Record the player themselves under the name.
    SetParameterToMyself(TaskParamName),
    /// Forget every recorded value.
    ClearParams,
    Discard(u32),
    DiscardFromParam(u32, TaskParamName),
    PlayersWithHeroTypeDiscard(HeroType),
    Sacrifice(u32),
    SacrificeFromParam(TaskParamName),
    Steal,
    StealCardFrom(TaskParamName, TaskParamName),
    UnStealCardFrom(TaskParamName, TaskParamName),
    Destroy,
    DestroyCard(TaskParamName, TaskParamName, DestroyModifiersDestination),
    /// Pull a card from the hand of the player recorded under the name.
    PullFrom(TaskParamName),
    /// Pull a card from the hand of the player recorded under the first name; record it under the second.
    PullRecord(TaskParamName, TaskParamName),
    PullAgain(TaskParamName, TaskParamName, PlayImmediatelyFilter),
    /// Offer to play the recorded card at once, then draw this many cards.
    OfferPlayImmediately(TaskParamName, PlayImmediatelyFilter, u32),
    /// Every item equipped to a hero goes back to its owner's hand.
    ReturnModifiers,
    SearchDiscard(SearchDiscardFilters),
    TradeHands(TaskParamName),
    ViewHand(TaskParamName),
    PlaceHero,
    UnstealTo,
    QiBear,
    PanChucksDestroy,
    BearyWise,
    Hook(PlayImmediatelyFilter),
    Bullseye,
    QuickDrawStyle(TaskParamName, TaskParamName, PlayImmediatelyFilter),
    GreedyCheeks,
    Spooky,
    Mimimeow,
    SlipperyPaws,
}


/// A copy of a list of tasks.
pub fn copy_tasks(tasks: &Vec<PlayerTask>) -> (r: Vec<PlayerTask>)
    ensures
        r@ == tasks@,
{
    let mut r: Vec<PlayerTask> = Vec::new();
    let mut i: usize = 0;
    while i < tasks.len()
        invariant
            i <= tasks@.len(),
            r@ == tasks@.take(i as int),
        decreases tasks@.len() - i,
    {
        r.push(tasks[i]);
        i = i + 1;
        assert(r@ =~= tasks@.take(i as int));
    }
    assert(tasks@.take(i as int) =~= tasks@);
    r
}

/// The number under which the values recorded for a name are kept.
pub open spec fn param_code(name: TaskParamName) -> u8 {
    match name {
        TaskParamName::PlayerToStealFrom => 0,
        TaskParamName::CardToSteal => 1,
        TaskParamName::PlayerToPullFrom => 2,
        TaskParamName::SlipperyPawsVictim => 3,
        TaskParamName::SlipperyPawsVictimPulledCard1 => 4,
        TaskParamName::SlipperyPawsVictimPulledCard2 => 5,
        TaskParamName::MeowzioVictim => 6,
        TaskParamName::MeowzioCard => 7,
        TaskParamName::ShurikittyVictim => 8,
        TaskParamName::ShurikittyCard => 9,
        TaskParamName::SilentShadowVictim => 10,
        TaskParamName::SilentShadowCard => 11,
        TaskParamName::SlyPickinsVictim => 12,
        TaskParamName::SlyPickinsCard => 13,
        TaskParamName::PanChuckFirstCard => 14,
        TaskParamName::PanChuckSecondCard => 15,
        TaskParamName::HeavyBearVictim => 16,
        TaskParamName::BearClawVictim => 17,
        TaskParamName::BearClawCard => 18,
        TaskParamName::FuryKnuckleVictim => 19,
        TaskParamName::FuryKnuckleCard => 20,
        TaskParamName::QuickDrawCard1 => 21,
        TaskParamName::QuickDrawCard2 => 22,
        TaskParamName::SharpFoxVictim => 23,
        TaskParamName::TipsyTootieVictim => 24,
        TaskParamName::TipsyTootieCard => 25,
        TaskParamName::MellowDeeCard => 26,
        TaskParamName::LuckBuckyVictim => 27,
        TaskParamName::LuckBuckyCard => 28,
        TaskParamName::DodgyDealerVictim => 29,
        TaskParamName::WigglesVictim => 30,
        TaskParamName::WigglesCard => 31,
        TaskParamName::SnowballCard => 32,
        TaskParamName::ButtonsVictim => 33,
        TaskParamName::ButtonsCard => 34,
        TaskParamName::HopperVictim => 35,
        TaskParamName::ForcedExchangeVictim => 36,
        TaskParamName::ForcedExchangeVictimCard => 37,
        TaskParamName::ForcedExchangeSelf => 38,
        TaskParamName::ForcedExchangeVictimDonationCard => 39,
    }
}

/// The name kept under a number (the last name for the numbers that no name uses).
pub open spec fn code_name(code: u8) -> TaskParamName {
    match code {
        0 => TaskParamName::PlayerToStealFrom,
        1 => TaskParamName::CardToSteal,
        2 => TaskParamName::PlayerToPullFrom,
        3 => TaskParamName::SlipperyPawsVictim,
        4 => TaskParamName::SlipperyPawsVictimPulledCard1,
        5 => TaskParamName::SlipperyPawsVictimPulledCard2,
        6 => TaskParamName::MeowzioVictim,
        7 => TaskParamName::MeowzioCard,
        8 => TaskParamName::ShurikittyVictim,
        9 => TaskParamName::ShurikittyCard,
        10 => TaskParamName::SilentShadowVictim,
        11 => TaskParamName::SilentShadowCard,
        12 => TaskParamName::SlyPickinsVictim,
        13 => TaskParamName::SlyPickinsCard,
        14 => TaskParamName::PanChuckFirstCard,
        15 => TaskParamName::PanChuckSecondCard,
        16 => TaskParamName::HeavyBearVictim,
        17 => TaskParamName::BearClawVictim,
        18 => TaskParamName::BearClawCard,
        19 => TaskParamName::FuryKnuckleVictim,
        20 => TaskParamName::FuryKnuckleCard,
        21 => TaskParamName::QuickDrawCard1,
        22 => TaskParamName::QuickDrawCard2,
        23 => TaskParamName::SharpFoxVictim,
        24 => TaskParamName::TipsyTootieVictim,
        25 => TaskParamName::TipsyTootieCard,
        26 => TaskParamName::MellowDeeCard,
        27 => TaskParamName::LuckBuckyVictim,
        28 => TaskParamName::LuckBuckyCard,
        29 => TaskParamName::DodgyDealerVictim,
        30 => TaskParamName::WigglesVictim,
        31 => TaskParamName::WigglesCard,
        32 => TaskParamName::SnowballCard,
        33 => TaskParamName::ButtonsVictim,
        34 => TaskParamName::ButtonsCard,
        35 => TaskParamName::HopperVictim,
        36 => TaskParamName::ForcedExchangeVictim,
        37 => TaskParamName::ForcedExchangeVictimCard,
        38 => TaskParamName::ForcedExchangeSelf,
        _ => TaskParamName::ForcedExchangeVictimDonationCard,
    }
}

/// Each name is kept under a number of its own.
proof fn lemma_code_name(name: TaskParamName)
    ensures
        code_name(param_code(name)) == name,
        param_code(name) < 40,
{
    match name {
        TaskParamName::PlayerToStealFrom => {},
        TaskParamName::CardToSteal => {},
        TaskParamName::PlayerToPullFrom => {},
        TaskParamName::SlipperyPawsVictim => {},
        TaskParamName::SlipperyPawsVictimPulledCard1 => {},
        TaskParamName::SlipperyPawsVictimPulledCard2 => {},
        TaskParamName::MeowzioVictim => {},
        TaskParamName::MeowzioCard => {},
        TaskParamName::ShurikittyVictim => {},
        TaskParamName::ShurikittyCard => {},
        TaskParamName::SilentShadowVictim => {},
        TaskParamName::SilentShadowCard => {},
        TaskParamName::SlyPickinsVictim => {},
        TaskParamName::SlyPickinsCard => {},
        TaskParamName::PanChuckFirstCard => {},
        TaskParamName::PanChuckSecondCard => {},
        TaskParamName::HeavyBearVictim => {},
        TaskParamName::BearClawVictim => {},
        TaskParamName::BearClawCard => {},
        TaskParamName::FuryKnuckleVictim => {},
        TaskParamName::FuryKnuckleCard => {},
        TaskParamName::QuickDrawCard1 => {},
        TaskParamName::QuickDrawCard2 => {},
        TaskParamName::SharpFoxVictim => {},
        TaskParamName::TipsyTootieVictim => {},
        TaskParamName::TipsyTootieCard => {},
        TaskParamName::MellowDeeCard => {},
        TaskParamName::LuckBuckyVictim => {},
        TaskParamName::LuckBuckyCard => {},
        TaskParamName::DodgyDealerVictim => {},
        TaskParamName::WigglesVictim => {},
        TaskParamName::WigglesCard => {},
        TaskParamName::SnowballCard => {},
        TaskParamName::ButtonsVictim => {},
        TaskParamName::ButtonsCard => {},
        TaskParamName::HopperVictim => {},
        TaskParamName::ForcedExchangeVictim => {},
        TaskParamName::ForcedExchangeVictimCard => {},
        TaskParamName::ForcedExchangeSelf => {},
        TaskParamName::ForcedExchangeVictimDonationCard => {},
    }
}

impl TaskParamName {
    /// The number under which the values recorded for the name are kept.
    pub fn code(&self) -> (r: u8)
        ensures
            r == param_code(*self),
    {
        match self {
            TaskParamName::PlayerToStealFrom => 0,
            TaskParamName::CardToSteal => 1,
            TaskParamName::PlayerToPullFrom => 2,
            TaskParamName::SlipperyPawsVictim => 3,
            TaskParamName::SlipperyPawsVictimPulledCard1 => 4,
            TaskParamName::SlipperyPawsVictimPulledCard2 => 5,
            TaskParamName::MeowzioVictim => 6,
            TaskParamName::MeowzioCard => 7,
            TaskParamName::ShurikittyVictim => 8,
            TaskParamName::ShurikittyCard => 9,
            TaskParamName::SilentShadowVictim => 10,
            TaskParamName::SilentShadowCard => 11,
            TaskParamName::SlyPickinsVictim => 12,
            TaskParamName::SlyPickinsCard => 13,
            TaskParamName::PanChuckFirstCard => 14,
            TaskParamName::PanChuckSecondCard => 15,
            TaskParamName::HeavyBearVictim => 16,
            TaskParamName::BearClawVictim => 17,
            TaskParamName::BearClawCard => 18,
            TaskParamName::FuryKnuckleVictim => 19,
            TaskParamName::FuryKnuckleCard => 20,
            TaskParamName::QuickDrawCard1 => 21,
            TaskParamName::QuickDrawCard2 => 22,
            TaskParamName::SharpFoxVictim => 23,
            TaskParamName::TipsyTootieVictim => 24,
            TaskParamName::TipsyTootieCard => 25,
            TaskParamName::MellowDeeCard => 26,
            TaskParamName::LuckBuckyVictim => 27,
            TaskParamName::LuckBuckyCard => 28,
            TaskParamName::DodgyDealerVictim => 29,
            TaskParamName::WigglesVictim => 30,
            TaskParamName::WigglesCard => 31,
            TaskParamName::SnowballCard => 32,
            TaskParamName::ButtonsVictim => 33,
            TaskParamName::ButtonsCard => 34,
            TaskParamName::HopperVictim => 35,
            TaskParamName::ForcedExchangeVictim => 36,
            TaskParamName::ForcedExchangeVictimCard => 37,
            TaskParamName::ForcedExchangeSelf => 38,
            TaskParamName::ForcedExchangeVictimDonationCard => 39,
        }
    }
}

/// Values recorded under parameter names, at most one per name.
#[derive(Debug, Clone)]
pub struct ParamValues<V> {
    entries: HashMap<u8, V>,
}

impl<V: Copy> ParamValues<V> {
    /// Every number in use is that of a name.
    pub closed spec fn well_formed(self) -> bool {
        forall|code: u8| #[trigger] self.entries@.dom().contains(code) ==> code < 40
    }

    /// The value recorded under each name.
    pub closed spec fn values(self) -> Map<TaskParamName, V> {
        Map::new(
            |k: TaskParamName| self.entries@.dom().contains(param_code(k)),
            |k: TaskParamName| self.entries@[param_code(k)],
        )
    }

    pub fn new() -> (r: Self)
        ensures
            r.well_formed(),
            r.values() == Map::<TaskParamName, V>::empty(),
    {
        let r = ParamValues { entries: HashMap::new() };
        assert(r.values() =~= Map::<TaskParamName, V>::empty());
        r
    }

    /// The value recorded under the name, if any.
    pub fn get(&self, name: TaskParamName) -> (r: Option<V>)
        requires
            self.well_formed(),
        ensures
            r == (if self.values().dom().contains(name) { Some(self.values()[name]) } else { None }),
    {
        broadcast use vstd::std_specs::hash::group_hash_axioms;
        let code = name.code();
        match self.entries.get(&code) {
            Some(v) => Some(*v),
            None => None,
        }
    }

    /// Records the value under the name, replacing what was there; says whether something was.
    pub fn insert(&mut self, name: TaskParamName, value: V) -> (replaced: bool)
        requires
            old(self).well_formed(),
        ensures
            final(self).well_formed(),
            final(self).values() == old(self).values().insert(name, value),
            replaced == old(self).values().dom().contains(name),
    {
        broadcast use vstd::std_specs::hash::group_hash_axioms;
        let ghost before = *self;
        let code = name.code();
        let previous = self.entries.insert(code, value);
        proof {
            lemma_code_name(name);
            assert forall|k: TaskParamName| #[trigger] self.values().dom().contains(k) == before.values().insert(name, value).dom().contains(k) by {
                lemma_code_name(k);
            }
            assert forall|k: TaskParamName| #[trigger] self.values().dom().contains(k) implies self.values()[k] == before.values().insert(name, value)[k] by {
                lemma_code_name(k);
            }
            assert(self.values() =~= before.values().insert(name, value));
        }
        previous.is_some()
    }

    /// A copy of the recorded values.
    pub fn copy(&self) -> (r: Self)
        ensures
            r.well_formed() == self.well_formed(),
            r.values() == self.values(),
    {
        let r = ParamValues { entries: self.entries.clone() };
        assert(r.values() =~= self.values());
        r
    }

    /// Forgets every value.
    pub fn clear(&mut self)
        ensures
            final(self).well_formed(),
            final(self).values() == Map::<TaskParamName, V>::empty(),
    {
        self.entries.clear();
        assert(self.values() =~= Map::<TaskParamName, V>::empty());
    }
}

/// The values that tasks leave for the tasks that follow them.
#[derive(Debug, Clone)]
pub struct TaskParams {
    pub players: ParamValues<ids::PlayerIndex>,
    /// `None` where the player did not choose a card.
    pub cards: ParamValues<Option<ids::CardId>>,
    pub index: ParamValues<usize>,
}

impl TaskParams {
    pub open spec fn well_formed(self) -> bool {
        self.players.well_formed() && self.cards.well_formed() && self.index.well_formed()
    }

    pub fn new() -> (r: Self)
        ensures
            r.well_formed(),
            r.players.values() == Map::<TaskParamName, ids::PlayerIndex>::empty(),
            r.cards.values() == Map::<TaskParamName, Option<ids::CardId>>::empty(),
            r.index.values() == Map::<TaskParamName, usize>::empty(),
    {
        TaskParams { players: ParamValues::new(), cards: ParamValues::new(), index: ParamValues::new() }
    }

    pub fn clear(&mut self)
        ensures
            final(self).well_formed(),
            final(self).players.values() == Map::<TaskParamName, ids::PlayerIndex>::empty(),
            final(self).cards.values() == Map::<TaskParamName, Option<ids::CardId>>::empty(),
            final(self).index.values() == Map::<TaskParamName, usize>::empty(),
    {
        self.players.clear();
        self.cards.clear();
        self.index.clear();
    }
}

/// The tasks a player still has to carry out, in order, and the values they share.
///
/// While a task is being carried out it is taken out of the queue; tasks that it adds in
/// front go into `prepend` and are moved to the front when the next task is taken.
#[derive(Debug, Clone)]
pub struct PlayerTasks {
    prepend: Vec<PlayerTask>,
    upcoming: VecDeque<PlayerTask>,
    current: Option<PlayerTask>,
    params: TaskParams,
}

/// The queue that a list of prepended tasks, an optional current task and the upcoming tasks form.
pub open spec fn queue_of(prepend: Seq<PlayerTask>, current: Option<PlayerTask>, upcoming: Seq<PlayerTask>) -> Seq<PlayerTask> {
    prepend.reverse() + (match current {
        Some(t) => seq![t],
        None => Seq::empty(),
    }) + upcoming
}

impl PlayerTasks {
    /// The tasks in the order in which they will be taken.
    pub closed spec fn queue(self) -> Seq<PlayerTask> {
        queue_of(self.prepend@, self.current, self.upcoming@)
    }

    /// Whether a task was put back and not taken again.
    pub closed spec fn has_current(self) -> bool {
        self.current is Some
    }

    pub closed spec fn well_formed(self) -> bool {
        self.params.well_formed()
    }

    /// The player values recorded so far.
    pub closed spec fn player_values(self) -> Map<TaskParamName, ids::PlayerIndex> {
        self.params.players.values()
    }

    /// The card values recorded so far.
    pub closed spec fn card_values(self) -> Map<TaskParamName, Option<ids::CardId>> {
        self.params.cards.values()
    }

    /// A queue holding the given tasks, in order, and no values.
    pub fn new(tasks: Vec<PlayerTask>) -> (r: Self)
        ensures
            r.well_formed(),
            r.queue() == tasks@,
            !r.has_current(),
            r.player_values() == Map::<TaskParamName, ids::PlayerIndex>::empty(),
            r.card_values() == Map::<TaskParamName, Option<ids::CardId>>::empty(),
    {
        let mut upcoming: VecDeque<PlayerTask> = VecDeque::new();
        let mut i: usize = 0;
        while i < tasks.len()
            invariant
                i <= tasks@.len(),
                upcoming@ == tasks@.take(i as int),
            decreases tasks@.len() - i,
        {
            upcoming.push_back(tasks[i]);
            i = i + 1;
            assert(upcoming@ =~= tasks@.take(i as int));
        }
        let r = PlayerTasks { prepend: Vec::new(), upcoming, current: None, params: TaskParams::new() };
        assert(r.queue() =~= tasks@);
        r
    }

    /// The tasks in the order in which they are kept: those put in front, in the order in
    /// which they were put there, then the current task, then the upcoming ones.
    pub closed spec fn stored(self) -> Seq<PlayerTask> {
        self.prepend@ + (match self.current {
            Some(t) => seq![t],
            None => Seq::empty(),
        }) + self.upcoming@
    }

    /// Whether there is neither a current task nor an upcoming one (tasks put in front aside).
    pub closed spec fn nothing_upcoming(self) -> bool {
        self.current is None && self.upcoming@.len() == 0
    }

    /// The tasks that a summary lists: none where there is neither a current task nor an
    /// upcoming one, whatever was put in front; else every task, in the order in which
    /// they are kept.
    pub fn summary_tasks(&self) -> (r: Option<Vec<PlayerTask>>)
        ensures
            r is None <==> self.nothing_upcoming(),
            r matches Some(v) ==> v@ == self.stored(),
    {
        if self.upcoming.len() == 0 && self.current.is_none() {
            return None;
        }
        let mut r = copy_tasks(&self.prepend);
        if let Some(task) = &self.current {
            r.push(*task);
        }
        let ghost front = r@;
        let mut i: usize = 0;
        while i < self.upcoming.len()
            invariant
                i <= self.upcoming@.len(),
                r@ == front + self.upcoming@.take(i as int),
            decreases self.upcoming@.len() - i,
        {
            r.push(self.upcoming[i]);
            i = i + 1;
            assert(r@ =~= front + self.upcoming@.take(i as int));
        }
        assert(self.upcoming@.take(i as int) =~= self.upcoming@);
        assert(r@ =~= self.stored());
        Some(r)
    }

    /// An empty queue.
    pub fn empty() -> (r: Self)
        ensures
            r.well_formed(),
            r.queue() == Seq::<PlayerTask>::empty(),
            !r.has_current(),
            r.player_values() == Map::<TaskParamName, ids::PlayerIndex>::empty(),
            r.card_values() == Map::<TaskParamName, Option<ids::CardId>>::empty(),
    {
        let r = PlayerTasks { prepend: Vec::new(), upcoming: VecDeque::new(), current: None, params: TaskParams::new() };
        assert(r.queue() =~= Seq::<PlayerTask>::empty());
        r
    }

    /// A copy of the queue and its values.
    pub fn copy(&self) -> (r: Self)
        ensures
            r.queue() == self.queue(),
            r.has_current() == self.has_current(),
            r.well_formed() == self.well_formed(),
            r.player_values() == self.player_values(),
            r.card_values() == self.card_values(),
    {
        let prepend = copy_tasks(&self.prepend);
        let mut upcoming: VecDeque<PlayerTask> = VecDeque::new();
        let mut i: usize = 0;
        while i < self.upcoming.len()
            invariant
                i <= self.upcoming@.len(),
                upcoming@ == self.upcoming@.take(i as int),
            decreases self.upcoming@.len() - i,
        {
            upcoming.push_back(self.upcoming[i]);
            i = i + 1;
            assert(upcoming@ =~= self.upcoming@.take(i as int));
        }
        assert(upcoming@ =~= self.upcoming@);
        PlayerTasks {
            prepend,
            upcoming,
            current: self.current,
            params: TaskParams {
                players: self.params.players.copy(),
                cards: self.params.cards.copy(),
                index: self.params.index.copy(),
            },
        }
    }

    /// Moves the given tasks, in order, to the end of the queue; the vector is left empty.
    pub fn take_from(&mut self, to_take: &mut Vec<PlayerTask>)
        ensures
            final(self).queue() == old(self).queue() + old(to_take)@,
            final(self).has_current() == old(self).has_current(),
            final(self).well_formed() == old(self).well_formed(),
            final(self).player_values() == old(self).player_values(),
            final(self).card_values() == old(self).card_values(),
            final(to_take)@ == Seq::<PlayerTask>::empty(),
    {
        let mut i: usize = 0;
        let ghost old_upcoming = self.upcoming@;
        while i < to_take.len()
            invariant
                i <= to_take@.len(),
                to_take@ == old(to_take)@,
                old_upcoming == old(self).upcoming@,
                self.upcoming@ == old_upcoming + to_take@.take(i as int),
                self.prepend == old(self).prepend,
                self.current == old(self).current,
                self.params == old(self).params,
            decreases to_take@.len() - i,
        {
            self.upcoming.push_back(to_take[i]);
            i = i + 1;
            assert(self.upcoming@ =~= old_upcoming + to_take@.take(i as int));
        }
        assert(to_take@.take(i as int) =~= to_take@);
        assert(self.queue() =~= old(self).queue() + to_take@);
        *to_take = Vec::new();
    }

    /// Puts the given tasks in front of the queue, in their order; the vector is left empty.
    pub fn prepend_from(&mut self, to_take: &mut Vec<PlayerTask>)
        ensures
            final(self).queue() == old(to_take)@ + old(self).queue(),
            final(self).has_current() == old(self).has_current(),
            final(self).well_formed() == old(self).well_formed(),
            final(self).player_values() == old(self).player_values(),
            final(self).card_values() == old(self).card_values(),
            final(to_take)@ == Seq::<PlayerTask>::empty(),
    {
        while to_take.len() > 0
            invariant
                to_take@ + self.queue() == old(to_take)@ + old(self).queue(),
                self.current == old(self).current,
                self.upcoming == old(self).upcoming,
                self.params == old(self).params,
            decreases to_take@.len(),
        {
            let ghost before = to_take@;
            let ghost queue_before = self.queue();
            let ghost prepend_before = self.prepend@;
            let task = to_take.pop().unwrap();
            self.prepend.push(task);
            assert(self.prepend@.reverse() =~= seq![task] + prepend_before.reverse());
            assert(self.queue() =~= seq![task] + queue_before);
            assert(before =~= to_take@.push(task));
            assert(to_take@ + self.queue() =~= before + queue_before);
        }
        assert(to_take@ =~= Seq::<PlayerTask>::empty());
        assert(self.queue() =~= old(to_take)@ + old(self).queue());
    }

    /// Puts a task in front of the queue.
    pub fn prepend(&mut self, next_task: PlayerTask)
        ensures
            final(self).queue() == seq![next_task] + old(self).queue(),
            final(self).has_current() == old(self).has_current(),
            final(self).well_formed() == old(self).well_formed(),
            final(self).player_values() == old(self).player_values(),
            final(self).card_values() == old(self).card_values(),
    {
        let ghost old_prepend = self.prepend@;
        self.prepend.push(next_task);
        proof {
            lemma_reverse_concat(old_prepend, seq![next_task]);
            assert(seq![next_task].reverse() =~= seq![next_task]);
            assert(old_prepend + seq![next_task] =~= old_prepend.push(next_task));
        }
        assert(self.queue() =~= seq![next_task] + old(self).queue());
    }

    /// Puts back the task that was last taken, in front of the queue.
    ///
    /// Fails, changing nothing, where a task was already put back and not taken again.
    pub fn put_current_task_back(&mut self, task: PlayerTask) -> (r: SlayResult<()>)
        ensures
            r is Err <==> old(self).has_current(),
            r is Err ==> *final(self) == *old(self),
            r is Ok ==> final(self).queue() == old(self).queue_with_current(task),
            r is Ok ==> final(self).has_current(),
            final(self).well_formed() == old(self).well_formed(),
            final(self).player_values() == old(self).player_values(),
            final(self).card_values() == old(self).card_values(),
    {
        if self.current.is_some() {
            return Err(SlayError::new("The current action should have been taken out right now."));
        }
        self.current = Some(task);
        Ok(())
    }

    /// How many tasks were put in front since the last task was taken.
    pub closed spec fn prepended_count(self) -> nat {
        self.prepend@.len()
    }

    /// Whether tasks were put in front since the last task was taken.
    pub closed spec fn has_prepended(self) -> bool {
        self.prepend@.len() > 0
    }

    /// The queue once the given task is put back as the current one: it comes after the
    /// tasks put in front since it was taken, and before the others.
    pub closed spec fn queue_with_current(self, task: PlayerTask) -> Seq<PlayerTask> {
        queue_of(self.prepend@, Some(task), self.upcoming@)
    }

    /// Where nothing was put in front and no task is current, a task put back comes first.
    pub proof fn lemma_put_back_goes_first(self, task: PlayerTask)
        requires
            !self.has_prepended(),
            !self.has_current(),
        ensures
            self.queue_with_current(task) == seq![task] + self.queue(),
    {
        assert(self.prepend@.reverse() =~= Seq::<PlayerTask>::empty());
        assert(self.queue_with_current(task) =~= seq![task] + self.queue());
    }

    /// Where tasks were put in front while the task was out, they come before it once it is
    /// put back, and the rest of the queue follows it.
    pub proof fn lemma_put_back_after_prepended(self, task: PlayerTask)
        requires
            !self.has_current(),
        ensures
            self.prepended_count() <= self.queue().len(),
            self.queue_with_current(task) == self.queue().take(self.prepended_count() as int) + seq![task]
                + self.queue().skip(self.prepended_count() as int),
    {
        let n = self.prepend@.len() as int;
        assert(self.queue() =~= self.prepend@.reverse() + self.upcoming@);
        assert(self.queue().take(n) =~= self.prepend@.reverse());
        assert(self.queue().skip(n) =~= self.upcoming@);
        assert(self.queue_with_current(task) =~= self.queue().take(n) + seq![task] + self.queue().skip(n));
    }

    fn ensure_rotated(&mut self)
        ensures
            final(self).queue() == old(self).queue(),
            final(self).prepend@ == Seq::<PlayerTask>::empty(),
            old(self).prepend@.len() > 0 ==> final(self).current is None,
            old(self).prepend@.len() == 0 ==> final(self).current == old(self).current,
            final(self).params == old(self).params,
    {
        if self.prepend.len() == 0 {
            return;
        }
        if let Some(task) = self.current.take() {
            self.upcoming.push_front(task);
        }
        assert(self.queue() =~= old(self).queue());
        while self.prepend.len() > 0
            invariant
                self.queue() == old(self).queue(),
                self.current is None,
                self.params == old(self).params,
            decreases self.prepend@.len(),
        {
            let ghost before = self.prepend@;
            let task = self.prepend.remove(0);
            self.upcoming.push_front(task);
            proof {
                assert(before =~= seq![task] + self.prepend@);
                lemma_reverse_concat(seq![task], self.prepend@);
                assert(seq![task].reverse() =~= seq![task]);
            }
            assert(self.queue() =~= old(self).queue());
        }
    }

    /// Takes the first task of the queue out of it, if there is one.
    pub fn take_current_task(&mut self) -> (r: Option<PlayerTask>)
        ensures
            old(self).queue().len() == 0 ==> r is None && final(self).queue() == old(self).queue(),
            old(self).queue().len() > 0 ==> r == Some(old(self).queue()[0]) && final(self).queue() == old(self).queue().drop_first(),
            !final(self).has_current(),
            !final(self).has_prepended(),
            final(self).well_formed() == old(self).well_formed(),
            final(self).player_values() == old(self).player_values(),
            final(self).card_values() == old(self).card_values(),
    {
        self.ensure_rotated();
        let ghost q = self.queue();
        match self.current.take() {
            Some(task) => {
                assert(self.queue() =~= q.drop_first());
                Some(task)
            },
            None => {
                let r = self.upcoming.pop_front();
                assert(self.queue() =~= (if q.len() > 0 { q.drop_first() } else { q }));
                r
            },
        }
    }

    /// Records a player under the name; fails where a player was already recorded under it, which is replaced all the same.
    pub fn set_player_value(&mut self, param_name: TaskParamName, player_index: ids::PlayerIndex) -> (r: SlayResult<()>)
        requires
            old(self).well_formed(),
        ensures
            final(self).well_formed(),
            final(self).player_values() == old(self).player_values().insert(param_name, player_index),
            final(self).card_values() == old(self).card_values(),
            final(self).queue() == old(self).queue(),
            final(self).has_current() == old(self).has_current(),
            r is Err <==> old(self).player_values().dom().contains(param_name),
    {
        if self.params.players.insert(param_name, player_index) {
            Err(SlayError::new("Overwriting a parameter value."))
        } else {
            Ok(())
        }
    }

    /// Records a card (or that none was chosen) under the name; fails where one was already recorded under it, which is replaced all the same.
    pub fn set_card_value(&mut self, param_name: TaskParamName, card_id: Option<ids::CardId>) -> (r: SlayResult<()>)
        requires
            old(self).well_formed(),
        ensures
            final(self).well_formed(),
            final(self).card_values() == old(self).card_values().insert(param_name, card_id),
            final(self).player_values() == old(self).player_values(),
            final(self).queue() == old(self).queue(),
            final(self).has_current() == old(self).has_current(),
            r is Err <==> old(self).card_values().dom().contains(param_name),
    {
        if self.params.cards.insert(param_name, card_id) {
            Err(SlayError::new("Overwriting a parameter value."))
        } else {
            Ok(())
        }
    }

    /// The card recorded under the name, if one was.
    pub fn get_card_value(&self, param_name: &TaskParamName) -> (r: Option<Option<ids::CardId>>)
        requires
            self.well_formed(),
        ensures
            r == (if self.card_values().dom().contains(*param_name) { Some(self.card_values()[*param_name]) } else { None }),
    {
        self.params.cards.get(*param_name)
    }

    /// The player recorded under the name, if one was.
    pub fn get_player_value(&self, param_name: &TaskParamName) -> (r: Option<ids::PlayerIndex>)
        requires
            self.well_formed(),
        ensures
            r == (if self.player_values().dom().contains(*param_name) { Some(self.player_values()[*param_name]) } else { None }),
    {
        self.params.players.get(*param_name)
    }

    /// Forgets every recorded value.
    pub fn clear_params(&mut self)
        ensures
            final(self).well_formed(),
            final(self).player_values() == Map::<TaskParamName, ids::PlayerIndex>::empty(),
            final(self).card_values() == Map::<TaskParamName, Option<ids::CardId>>::empty(),
            final(self).queue() == old(self).queue(),
            final(self).has_current() == old(self).has_current(),
    {
        self.params.clear();
    }
}

/// Reversing a concatenation concatenates the reversed parts in the other order.
pub proof fn lemma_reverse_concat(a: Seq<PlayerTask>, b: Seq<PlayerTask>)
    ensures
        (a + b).reverse() == b.reverse() + a.reverse(),
{
    assert((a + b).reverse() =~= b.reverse() + a.reverse());
}

/// A player recorded under a name is what is read back under that name, and the values
/// recorded under other names stay as they were.
pub proof fn lemma_player_value_read_back(before: PlayerTasks, after: PlayerTasks, name: TaskParamName, player_index: ids::PlayerIndex)
    requires
        after.player_values() == before.player_values().insert(name, player_index),
    ensures
        after.player_values().dom().contains(name),
        after.player_values()[name] == player_index,
        forall|other: TaskParamName| other != name ==> (#[trigger] after.player_values().dom().contains(other)
            == before.player_values().dom().contains(other)),
        forall|other: TaskParamName| other != name && before.player_values().dom().contains(other)
            ==> #[trigger] after.player_values()[other] == before.player_values()[other],
{
}

/// A card recorded under a name is what is read back under that name, and the values
/// recorded under other names stay as they were.
pub proof fn lemma_card_value_read_back(before: PlayerTasks, after: PlayerTasks, name: TaskParamName, card_id: Option<ids::CardId>)
    requires
        after.card_values() == before.card_values().insert(name, card_id),
    ensures
        after.card_values().dom().contains(name),
        after.card_values()[name] == card_id,
        forall|other: TaskParamName| other != name ==> (#[trigger] after.card_values().dom().contains(other)
            == before.card_values().dom().contains(other)),
        forall|other: TaskParamName| other != name && before.card_values().dom().contains(other)
            ==> #[trigger] after.card_values()[other] == before.card_values()[other],
{
}

/// Taking the first task out of a queue and putting it straight back leaves the queue as it was.
pub proof fn lemma_take_then_put_back(before: PlayerTasks, taken: PlayerTasks, task: PlayerTask)
    requires
        before.queue().len() > 0,
        task == before.queue()[0],
        taken.queue() == before.queue().drop_first(),
        !taken.has_prepended(),
        !taken.has_current(),
    ensures
        taken.queue_with_current(task) == before.queue(),
{
    taken.lemma_put_back_goes_first(task);
    assert(seq![task] + before.queue().drop_first() =~= before.queue());
}

/// How many tasks of the queue use a hero's ability.
pub open spec fn ability_count(queue: Seq<PlayerTask>) -> nat
    decreases queue.len(),
{
    if queue.len() == 0 {
        0
    } else {
        ability_count(queue.drop_last()) + if queue.last() is UseAbility { 1nat } else { 0nat }
    }
}

/// Counting the uses of abilities in two queues, one after the other, adds up.
pub proof fn lemma_ability_count_append(a: Seq<PlayerTask>, b: Seq<PlayerTask>)
    ensures
        ability_count(a + b) == ability_count(a) + ability_count(b),
    decreases b.len(),
{
    if b.len() > 0 {
        lemma_ability_count_append(a, b.drop_last());
        assert((a + b).drop_last() =~= a + b.drop_last());
    } else {
        assert(a + b =~= a);
    }
}

/// The tasks of a hero's ability never use an ability themselves.
pub proof fn lemma_ability_tasks_use_no_ability(a: HeroAbilityType)
    ensures
        ability_count(a.spec_tasks()) == 0,
{
    reveal_with_fuel(ability_count, 6);
    match a {
        HeroAbilityType::BadAxe => {},
        HeroAbilityType::BearClaw => {},
        HeroAbilityType::BearyWise => {},
        HeroAbilityType::Bullseye => {},
        HeroAbilityType::BunBun => {},
        HeroAbilityType::Buttons => {},
        HeroAbilityType::CalmingVoice => {},
        HeroAbilityType::DodgyDealer => {},
        HeroAbilityType::Fluffy => {},
        HeroAbilityType::FuryKnuckle => {},
        HeroAbilityType::FuzzyCheeks => {},
        HeroAbilityType::GreedyCheeks => {},
        HeroAbilityType::GuidingLight => {},
        HeroAbilityType::HeavyBear => {},
        HeroAbilityType::HolyCurselifter => {},
        HeroAbilityType::Hook => {},
        HeroAbilityType::Hopper => {},
        HeroAbilityType::IronResolve => {},
        HeroAbilityType::KitNapper => {},
        HeroAbilityType::LookieRookie => {},
        HeroAbilityType::LuckBucky => {},
        HeroAbilityType::MellowDee => {},
        HeroAbilityType::Meowzio => {},
        HeroAbilityType::MightyBlade => {},
        HeroAbilityType::NappingNibbles => {},
        HeroAbilityType::PanChucks => {},
        HeroAbilityType::Peanut => {},
        HeroAbilityType::PlunderingPuma => {},
        HeroAbilityType::QiBear => {},
        HeroAbilityType::QuickDraw => {},
        HeroAbilityType::RadiantHorn => {},
        HeroAbilityType::SeriousGrey => {},
        HeroAbilityType::SharpFox => {},
        HeroAbilityType::Shurikitty => {},
        HeroAbilityType::SilentShadow => {},
        HeroAbilityType::SlipperyPaws => {},
        HeroAbilityType::SlyPickings => {},
        HeroAbilityType::SmoothMimimeow => {},
        HeroAbilityType::Snowball => {},
        HeroAbilityType::Spooky => {},
        HeroAbilityType::TipsyTootie => {},
        HeroAbilityType::ToughTeddy => {},
        HeroAbilityType::VibrantGlow => {},
        HeroAbilityType::Whiskers => {},
        HeroAbilityType::Wiggles => {},
        HeroAbilityType::Wildshot => {},
        HeroAbilityType::WilyRed => {},
        HeroAbilityType::WiseShield => {},
    }
}

/// How far a queue is from being done: uses of abilities first, then the number of tasks.
pub open spec fn queue_measure(queue: Seq<PlayerTask>) -> (nat, nat) {
    (ability_count(queue), queue.len())
}

/// Whether the player's tasks in `after` are those in `before`, with the queue as given.
pub open spec fn keeps_tasks_but_queue(before: Game, after: Game, player_index: ids::PlayerIndex, queue: Seq<PlayerTask>) -> bool {
    &&& after.players@.len() == before.players@.len()
    &&& after.players@[player_index as int].tasks.queue() == queue
    &&& after.players@[player_index as int].tasks.has_current() == before.players@[player_index as int].tasks.has_current()
    &&& after.players@[player_index as int].tasks.well_formed() == before.players@[player_index as int].tasks.well_formed()
}

/// The queue of a player once `task` has been carried out: the tasks of an ability go in
/// front, in order; other tasks leave the queue as it was.
pub open spec fn queue_after(task: PlayerTask, queue: Seq<PlayerTask>) -> Seq<PlayerTask> {
    match task {
        PlayerTask::UseAbility(u) => u.ability.spec_tasks() + queue,
        _ => queue,
    }
}

/// Whether the library carries out the task for the player in this game (else it fails):
/// a card is moved where both decks exist and the source holds the card; a status effect is
/// received where its duration can be counted; a slain monster is taken where it is among
/// the monsters; a challenge needs an offer going on; a modification needs a showdown going
/// on that tracks every player and has a roll at the path; a player says how far they are
/// with a showdown going on that tracks them; a player is recorded under a name not yet in
/// use.  Using an ability, drawing and forgetting the recorded values always work; the
/// tasks that wait for a decision of the player are never carried out.
pub open spec fn carried_out(task: PlayerTask, game: Game, player_index: int) -> bool {
    match task {
        PlayerTask::MoveCard(t) => {
            &&& game.valid_path(t.source)
            &&& game.valid_path(t.destination)
            &&& (top_position(game.spec_deck(t.source)@, t.card_id) is Some
                || modifier_position(game.spec_deck(t.source)@, t.card_id) is Some)
        },
        PlayerTask::ReceiveModifier(m) => m.duration is ForThisTurn || game.turn.round_number() < u32::MAX,
        PlayerTask::UseAbility(_) => true,
        PlayerTask::MonsterSlain(m) => top_position(game.monsters@, m.card_id) is Some
            || modifier_position(game.monsters@, m.card_id) is Some,
        PlayerTask::Challenge(_) => game.showdown.show_down_type == ShowDownType::OfferChallenges && game.showdown.offer is Some,
        PlayerTask::ModifyRoll(m) => {
            &&& game.showdown.has_current()
            &&& game.showdown.spec_current_tracker() is Some
            &&& game.showdown.spec_current_tracker().unwrap().completions@.len() >= game.players@.len()
            &&& ((m.path == ModificationPath::Roll && game.showdown.show_down_type == ShowDownType::Roll)
                || (m.path != ModificationPath::Roll && game.showdown.show_down_type == ShowDownType::Challenge))
        },
        PlayerTask::SetCompletion(_) => {
            &&& game.showdown.has_current()
            &&& game.showdown.spec_current_tracker() is Some
            &&& player_index < game.showdown.spec_current_tracker().unwrap().completions@.len()
        },
        PlayerTask::Draw(_) => true,
        PlayerTask::DrawUntil(_) => true,
        PlayerTask::SetParameterToMyself(name) => !game.players@[player_index].tasks.player_values().dom().contains(name),
        PlayerTask::ClearParams => true,
        _ => false,
    }
}

/// Whether `after` is `before` with, at most, the given player changed.
pub open spec fn only_player_changed(before: Game, after: Game, player_index: int) -> bool {
    &&& after.same_except_players(before)
    &&& after.players@.len() == before.players@.len()
    &&& forall|j: int| 0 <= j < before.players@.len() && j != player_index ==> #[trigger] after.players@[j] == before.players@[j]
}

/// How long a received status effect lasts, counted from this turn.
pub open spec fn received_duration(duration: ReceiveDuration, turn: Turn) -> EffectDuration {
    match duration {
        ReceiveDuration::ForThisTurn => EffectDuration::ForThisTurn(turn.turn_number()),
        ReceiveDuration::UntilNextTurn => EffectDuration::UntilNextTurn((turn.round_number() + 1) as u32, turn.active_player()),
    }
}

/// Whether `after` is `before` once the player has drawn `num` cards: the stacks come from
/// the draw pile, refilled from the discard pile where it runs short; nothing else changes.
pub open spec fn drew(before: Game, after: Game, player_index: int, num: nat) -> bool {
    &&& replenished(
        before.draw,
        before.players@[player_index].hand,
        before.discard,
        after.draw,
        after.players@[player_index].hand,
        after.discard,
        num,
    )
    &&& after.turn == before.turn
    &&& after.showdown == before.showdown
    &&& after.monsters == before.monsters
    &&& after.leaders == before.leaders
    &&& after.next_monsters == before.next_monsters
    &&& after.players@.len() == before.players@.len()
    &&& forall|j: int| 0 <= j < before.players@.len() && j != player_index ==> #[trigger] after.players@[j] == before.players@[j]
    &&& after.players@[player_index] == (Player { hand: after.players@[player_index].hand, ..before.players@[player_index] })
}

/// Whether `after` is `before` once the first of the next monsters, if there is one, has
/// joined the monsters on the table.
pub open spec fn next_monster_dealt(before: Game, after: Game) -> bool {
    &&& after.turn == before.turn
    &&& after.showdown == before.showdown
    &&& after.draw == before.draw
    &&& after.discard == before.discard
    &&& after.leaders == before.leaders
    &&& after.players@ == before.players@
    &&& after.monsters.spec == before.monsters.spec
    &&& after.next_monsters.spec == before.next_monsters.spec
    &&& before.next_monsters@.len() == 0 ==> after.monsters@ == before.monsters@ && after.next_monsters@ == before.next_monsters@
    &&& before.next_monsters@.len() > 0 ==> after.monsters@ == before.monsters@.push(before.next_monsters@[0])
        && after.next_monsters@ == before.next_monsters@.drop_first()
}

/// Whether `after` is `before` once the player has challenged the offer going on: the offer
/// becomes a challenge between its player and this one, for the same reason and with the same
/// consequences, tracking every player from the start, and every player gets the decision
/// that the challenge offers them.
pub open spec fn challenge_started(before: Game, after: Game, player_index: int) -> bool {
    let offer = before.showdown.offer.unwrap();
    let challenge = after.showdown.challenge.unwrap();
    &&& after.showdown.show_down_type == ShowDownType::Challenge
    &&& after.showdown.challenge is Some
    &&& after.showdown.offer is None
    &&& after.showdown.roll is None
    &&& challenge.initiator.player_index == offer.player_index
    &&& challenge.challenger.player_index == player_index
    &&& challenge.reason == offer.reason
    &&& challenge.consequences.success.condition == offer.consequences.success.condition
    &&& challenge.consequences.success.tasks@ == offer.consequences.success.tasks@
    &&& challenge.consequences.loss is Some == offer.consequences.loss is Some
    &&& challenge.completion_tracker is Some
    &&& challenge.completion_tracker.unwrap().completions@ == Seq::new(before.players@.len(), |i: int| Completion::Thinking)
    &&& after.turn == before.turn
    &&& after.draw == before.draw
    &&& after.discard == before.discard
    &&& after.monsters == before.monsters
    &&& after.leaders == before.leaders
    &&& after.next_monsters == before.next_monsters
    &&& after.players@.len() == before.players@.len()
    &&& forall|i: int| 0 <= i < before.players@.len() ==> {
        &&& (#[trigger] after.players@[i]).choices is Some
        &&& after.players@[i].choices.unwrap().timeline == challenge.completion_tracker.unwrap().timeline
        &&& after.players@[i] == (Player { choices: after.players@[i].choices, ..before.players@[i] })
    }
}

/// The player on whose behalf a modification is made: the one who played it, or, for a
/// modification that a status effect brings, the player carrying out the task.
pub open spec fn modifying_player(modification: RollModification, player_index: ids::PlayerIndex) -> ids::PlayerIndex {
    match modification.origin {
        ModificationOrigin::FromPlayer(p, _) => p,
        ModificationOrigin::FromBuff(_) => player_index,
    }
}

/// Whether `after` is `before` once the modification has been added to the roll at the
/// path, and the player who made it, and each player who was done only until the next
/// modification, have been given a new decision about the showdown.
pub open spec fn roll_modified(before: Game, after: Game, player_index: ids::PlayerIndex, task: ModifyRollTask) -> bool {
    let modifier = modifying_player(task.modification, player_index);
    &&& after.showdown.modification_added(before.showdown, task.path, task.modification)
    &&& after.turn == before.turn
    &&& after.draw == before.draw
    &&& after.discard == before.discard
    &&& after.monsters == before.monsters
    &&& after.leaders == before.leaders
    &&& after.next_monsters == before.next_monsters
    &&& after.players@.len() == before.players@.len()
    &&& forall|i: int| 0 <= i < before.players@.len() ==> {
        &&& (#[trigger] after.players@[i]) == (Player { choices: after.players@[i].choices, ..before.players@[i] })
        &&& before.showdown.offers_again(i, modifier) ==> after.players@[i].choices is Some
            && after.players@[i].choices.unwrap().timeline == after.showdown.spec_current_tracker().unwrap().timeline
            && after.players@[i].choices.unwrap().default_choice is Some
            && exists|c: Choices| after.players@[i].choices.unwrap().same_as(c)
                && #[trigger] after.showdown.offers_decision_now(before, i as ids::PlayerIndex, c)
        &&& !before.showdown.offers_again(i, modifier) ==> after.players@[i].choices == before.players@[i].choices
    }
}

/// Whether `after` is `before` once the player has said how far they are with the showdown
/// going on; nothing else changes.
pub open spec fn completion_set(before: Game, after: Game, player_index: int, completion: Completion) -> bool {
    &&& after.turn == before.turn
    &&& after.draw == before.draw
    &&& after.discard == before.discard
    &&& after.monsters == before.monsters
    &&& after.leaders == before.leaders
    &&& after.next_monsters == before.next_monsters
    &&& after.players@ == before.players@
    &&& after.showdown.show_down_type == before.showdown.show_down_type
    &&& after.showdown.has_trackers()
    &&& after.showdown.has_current() == before.showdown.has_current()
    &&& after.showdown.spec_current_tracker().unwrap().completions@
        == before.showdown.spec_current_tracker().unwrap().completions@.update(player_index, completion)
    &&& after.showdown.spec_current_tracker().unwrap().timeline == before.showdown.spec_current_tracker().unwrap().timeline
}

/// Whether `after` is `before` with only the player's recorded values changed: players
/// recorded as given, cards as given, the queue kept.
pub open spec fn values_set(
    before: Game,
    after: Game,
    player_index: int,
    player_values: Map<TaskParamName, ids::PlayerIndex>,
    card_values: Map<TaskParamName, Option<ids::CardId>>,
) -> bool {
    let tasks = after.players@[player_index].tasks;
    &&& only_player_changed(before, after, player_index)
    &&& after.players@[player_index] == (Player { tasks, ..before.players@[player_index] })
    &&& tasks.player_values() == player_values
    &&& tasks.card_values() == card_values
    &&& tasks.queue() == before.players@[player_index].tasks.queue()
    &&& tasks.has_current() == before.players@[player_index].tasks.has_current()
    &&& tasks.well_formed()
}

/// What carrying out the task for the player makes of the game, where it is carried out
/// (see `carried_out`): `after` is `before` once the task has taken effect.
pub open spec fn progressed(task: PlayerTask, before: Game, after: Game, player_index: ids::PlayerIndex) -> bool {
    let p = player_index as int;
    let player = before.players@[p];
    match task {
        PlayerTask::MoveCard(t) => after.moved_card(before, t.source, t.destination, t.card_id),
        PlayerTask::ReceiveModifier(m) => {
            &&& only_player_changed(before, after, p)
            &&& after.players@[p] == (Player { temporary_buffs: after.players@[p].temporary_buffs, ..player })
            &&& after.players@[p].temporary_buffs@ == player.temporary_buffs@.push(TemporaryPlayerStatusEffect {
                duration: received_duration(m.duration, before.turn),
                status_effect: PlayerStatusEffectEntry { modifier: m.modifier, origin: m.origin },
            })
        },
        PlayerTask::UseAbility(u) => after.changes_queue(before, player_index, u.ability.spec_tasks() + player.tasks.queue()),
        PlayerTask::MonsterSlain(m) => exists|middle: Game| {
            &&& #[trigger] middle.moved_card(before, DeckPath::ActiveMonsters, DeckPath::SlainMonsters(player_index), m.card_id)
            &&& next_monster_dealt(middle, after)
        },
        PlayerTask::Challenge(_) => challenge_started(before, after, p),
        PlayerTask::ModifyRoll(m) => roll_modified(before, after, player_index, m),
        PlayerTask::SetCompletion(c) => completion_set(before, after, p, c),
        PlayerTask::Draw(n) => drew(before, after, p, n as nat),
        PlayerTask::DrawUntil(n) => if player.hand@.len() < n {
            drew(before, after, p, (n - player.hand@.len()) as nat)
        } else {
            after == before
        },
        PlayerTask::SetParameterToMyself(name) => values_set(
            before,
            after,
            p,
            player.tasks.player_values().insert(name, player_index),
            player.tasks.card_values(),
        ),
        PlayerTask::ClearParams => values_set(
            before,
            after,
            p,
            Map::<TaskParamName, ids::PlayerIndex>::empty(),
            Map::<TaskParamName, Option<ids::CardId>>::empty(),
        ),
        _ => false,
    }
}

/// The label of a task where it is plain text: a challenge, the use of an ability, and
/// the taking of a slain monster.
pub open spec fn plain_label(task: PlayerTask) -> Option<Seq<char>> {
    match task {
        PlayerTask::Challenge(_) => Some("Player is challenging."@),
        PlayerTask::UseAbility(_) => Some("I wish I were this far..."@),
        PlayerTask::MonsterSlain(m) => Some("Slay monster card "@ + decimal(m.card_id as nat) + "."@),
        _ => None,
    }
}

impl PlayerTask {
    /// The label of the task, where it is plain text (see `plain_label`).
    pub fn label(&self) -> (r: Option<String>)
        ensures
            r is None <==> plain_label(*self) is None,
            r matches Some(text) ==> plain_label(*self) == Some(text@),
    {
        match self {
            PlayerTask::Challenge(_) => Some(String::from_str("Player is challenging.")),
            PlayerTask::UseAbility(_) => Some(String::from_str("I wish I were this far...")),
            PlayerTask::MonsterSlain(m) => {
                let mut r = String::from_str("Slay monster card ");
                let digits = decimal_text(m.card_id as u64);
                r.append(digits.as_str());
                r.append(".");
                Some(r)
            },
            _ => None,
        }
    }

    /// Carries out the task for the player.
    ///
    /// Moving a card, receiving a status effect, using an ability, taking a slain monster,
    /// challenging, modifying a roll, saying how far one is with a showdown, drawing and
    /// handling recorded values are carried out; the tasks that need a decision of the
    /// player are not carried out here, and fail.  A task carried out reports
    /// `TaskComplete`, and the game is then as `progressed` says.
    pub fn make_progress(&self, context: &mut GameBookKeeping, game: &mut Game, player_index: ids::PlayerIndex) -> (r: SlayResult<TaskProgressResult>)
        requires
            player_index < old(game).players@.len(),
            old(game).players@[player_index as int].tasks.well_formed(),
        ensures
            r is Ok <==> carried_out(*self, *old(game), player_index as int),
            r is Ok ==> r == Ok::<TaskProgressResult, SlayError>(TaskProgressResult::TaskComplete),
            r is Ok ==> keeps_tasks_but_queue(*old(game), *final(game), player_index, queue_after(*self, old(game).players@[player_index as int].tasks.queue())),
            r is Ok ==> progressed(*self, *old(game), *final(game), player_index),
            r is Err ==> final(game).players@.len() == old(game).players@.len(),
            r is Err ==> final(game).players@[player_index as int].tasks.queue() == old(game).players@[player_index as int].tasks.queue(),
            r is Err ==> final(game).players@[player_index as int].tasks.has_current() == old(game).players@[player_index as int].tasks.has_current(),
            r is Err ==> final(game).players@[player_index as int].tasks.well_formed() == old(game).players@[player_index as int].tasks.well_formed(),
            *self matches PlayerTask::MoveCard(t) ==> (r is Ok ==> (top_position(old(game).spec_deck(t.source)@, t.card_id) is Some
                || modifier_position(old(game).spec_deck(t.source)@, t.card_id) is Some)),
    {
        let ghost before = *game;
        match self {
            PlayerTask::MoveCard(t) => {
                if !game.is_valid_path(t.source) || !game.is_valid_path(t.destination) {
                    return Err(SlayError::new("The task names a deck that is not in the game."));
                }
                let result = game.move_card(t.source, t.destination, t.card_id);
                match result {
                    Ok(()) => Ok(TaskProgressResult::TaskComplete),
                    Err(e) => Err(e),
                }
            },
            PlayerTask::ReceiveModifier(m) => {
                let turn = game.get_turn();
                let duration = match m.duration {
                    ReceiveDuration::ForThisTurn => turn.for_this_turn(),
                    ReceiveDuration::UntilNextTurn => {
                        if !turn.has_next_round() {
                            return Err(SlayError::new("The game has run out of rounds."));
                        }
                        turn.until_next_turn()
                    },
                };
                game.players[player_index].temporary_buffs.add_buff(duration, m.modifier, m.origin);
                Ok(TaskProgressResult::TaskComplete)
            },
            PlayerTask::UseAbility(u) => {
                let mut tasks = u.ability.create_tasks();
                game.prepend_tasks(player_index, &mut tasks);
                Ok(TaskProgressResult::TaskComplete)
            },
            PlayerTask::MonsterSlain(m) => {
                match game.move_card(DeckPath::ActiveMonsters, DeckPath::SlainMonsters(player_index), m.card_id) {
                    Ok(()) => {},
                    Err(e) => {
                        return Err(e);
                    },
                }
                if let Some(stack) = game.next_monsters.maybe_deal() {
                    game.monsters.add(stack);
                }
                Ok(TaskProgressResult::TaskComplete)
            },
            PlayerTask::Challenge(_) => {
                let offer = match game.showdown.take_current_offer() {
                    Ok(offer) => offer,
                    Err(e) => {
                        return Err(e);
                    },
                };
                let mut challenge = match offer.to_challenge(&mut context.rng, game, player_index) {
                    Ok(challenge) => challenge,
                    Err(e) => {
                        return Err(e);
                    },
                };
                challenge.completion_tracker = Some(CompletionTracker::new(game.number_of_players(), get_challenge_deadline()));
                challenge.assign_all_choices(context, game);
                game.showdown.challenge(challenge);
                Ok(TaskProgressResult::TaskComplete)
            },
            PlayerTask::ModifyRoll(m) => {
                match game.showdown.tracked_current_len() {
                    Some(count) => {
                        if count < game.number_of_players() {
                            return Err(SlayError::new("The showdown does not track every player."));
                        }
                    },
                    None => {
                        return Err(SlayError::new("There is no roll to modify."));
                    },
                }
                match game.showdown.add_modification(m.path, m.modification) {
                    Ok(()) => {},
                    Err(e) => {
                        return Err(e);
                    },
                }
                let modifying_player_index = match m.modification.origin {
                    ModificationOrigin::FromPlayer(p, _) => p,
                    ModificationOrigin::FromBuff(_) => player_index,
                };
                let ghost middle = *game;
                let task = game.showdown.get_modification_task(context, game, modifying_player_index);
                task.apply(context, game);
                proof {
                    let entries = task.choices_to_assign@;
                    assert forall|i: int| 0 <= i < before.players@.len() implies {
                        &&& before.showdown.offers_again(i, modifying_player_index) ==> game.players@[i].choices is Some
                            && game.players@[i].choices.unwrap().timeline == game.showdown.spec_current_tracker().unwrap().timeline
                            && game.players@[i].choices.unwrap().default_choice is Some
                            && exists|c: Choices| game.players@[i].choices.unwrap().same_as(c)
                                && #[trigger] game.showdown.offers_decision_now(before, i as ids::PlayerIndex, c)
                        &&& !before.showdown.offers_again(i, modifying_player_index) ==> game.players@[i].choices == before.players@[i].choices
                    } by {
                        assert(middle.showdown.offers_again(i, modifying_player_index) == before.showdown.offers_again(i, modifying_player_index));
                        assert(listed(entries, i) == before.showdown.offers_again(i, modifying_player_index));
                        if listed(entries, i) {
                            let k = choose|k: int| 0 <= k < entries.len() && #[trigger] entries[k].0 == i;
                            assert(entries[k].0 == i);
                            let c = game.players@[i].choices.unwrap();
                            assert(last_listed_is(entries, entries.len() as int, i, c));
                            let kk = choose|kk: int| {
                                &&& 0 <= kk < entries.len()
                                &&& #[trigger] entries[kk].0 == i
                                &&& forall|j: int| kk < j < entries.len() ==> #[trigger] entries[j].0 != i
                                &&& c.same_as(entries[kk].1)
                            };
                            assert(entries[kk].1.timeline == middle.showdown.spec_current_tracker().unwrap().timeline);
                            assert(middle.showdown.offers_decision_now(middle, entries[kk].0, entries[kk].1));
                            assert(middle.players@ == before.players@);
                            assert(game.showdown.offers_decision_now(before, i as ids::PlayerIndex, entries[kk].1));
                        } else {
                            assert forall|k: int| 0 <= k < entries.len() implies #[trigger] entries[k].0 != i by {
                                if entries[k].0 == i {
                                    assert(listed(entries, i));
                                }
                            }
                        }
                    }
                }
                Ok(TaskProgressResult::TaskComplete)
            },
            PlayerTask::SetCompletion(completion) => {
                match game.showdown.tracked_current_len() {
                    Some(count) => {
                        if player_index >= count {
                            return Err(SlayError::new("The showdown does not track this player."));
                        }
                    },
                    None => {
                        if game.showdown.show_down_type == ShowDownType::Nothing {
                            return Err(SlayError::new("There is no showdown going on."));
                        }
                        return Err(SlayError::new("The showdown does not track the players."));
                    },
                }
                match game.showdown.set_player_completion(player_index, *completion) {
                    Ok(()) => Ok(TaskProgressResult::TaskComplete),
                    Err(e) => Err(e),
                }
            },
            PlayerTask::Draw(n) => {
                let player = &mut game.players[player_index];
                replentish(&mut game.draw, &mut player.hand, &mut game.discard, *n as usize);
                Ok(TaskProgressResult::TaskComplete)
            },
            PlayerTask::DrawUntil(n) => {
                let held = game.players[player_index].hand.num_top_cards();
                if held < *n as usize {
                    let player = &mut game.players[player_index];
                    replentish(&mut game.draw, &mut player.hand, &mut game.discard, *n as usize - held);
                }
                Ok(TaskProgressResult::TaskComplete)
            },
            PlayerTask::SetParameterToMyself(name) => {
                match game.players[player_index].tasks.set_player_value(*name, player_index) {
                    Ok(()) => Ok(TaskProgressResult::TaskComplete),
                    Err(e) => Err(e),
                }
            },
            PlayerTask::ClearParams => {
                game.players[player_index].tasks.clear_params();
                Ok(TaskProgressResult::TaskComplete)
            },
            _ => Err(SlayError::new("The task waits for a choice of the player.")),
        }
    }
}

/// Whether a task is carried out does not depend on the rest of the player's queue.
proof fn lemma_carried_out_ignores_queue(task: PlayerTask, before: Game, after: Game, player_index: int)
    requires
        0 <= player_index < before.players@.len(),
        after.players@.len() == before.players@.len(),
        forall|j: int| 0 <= j < before.players@.len() && j != player_index ==> #[trigger] after.players@[j] == before.players@[j],
        after.players@[player_index] == (Player { tasks: after.players@[player_index].tasks, ..before.players@[player_index] }),
        after.players@[player_index].tasks.player_values() == before.players@[player_index].tasks.player_values(),
        after.turn == before.turn,
        after.showdown == before.showdown,
        after.draw == before.draw,
        after.discard == before.discard,
        after.monsters == before.monsters,
        after.leaders == before.leaders,
        after.next_monsters == before.next_monsters,
    ensures
        carried_out(task, after, player_index) == carried_out(task, before, player_index),
{
    assert forall|path: DeckPath| before.valid_path(path) implies #[trigger] after.spec_deck(path) == before.spec_deck(path) by {
        match path {
            DeckPath::Hand(i) | DeckPath::Party(i) | DeckPath::SlainMonsters(i) => {
                if i as int == player_index {
                } else if (i as int) < before.players@.len() {
                    assert(after.players@[i as int] == before.players@[i as int]);
                }
            },
            _ => {},
        }
    }
}

/// Whether `after` is `before` with the player's queue replaced by `queue` and no task
/// current; nothing else of the game, or of the player's tasks, changes.
pub open spec fn tasks_requeued(before: Game, after: Game, player_index: int, queue: Seq<PlayerTask>) -> bool {
    let tasks = after.players@[player_index].tasks;
    &&& only_player_changed(before, after, player_index)
    &&& after.players@[player_index] == (Player { tasks, ..before.players@[player_index] })
    &&& tasks.queue() == queue
    &&& !tasks.has_current()
    &&& tasks.well_formed() == before.players@[player_index].tasks.well_formed()
    &&& tasks.player_values() == before.players@[player_index].tasks.player_values()
    &&& tasks.card_values() == before.players@[player_index].tasks.card_values()
}

/// Whether `after` follows `before` by one task of the player: the player has no decision to
/// make, their first task is taken out of the queue and carried out.
pub open spec fn task_step(before: Game, after: Game, player_index: ids::PlayerIndex) -> bool {
    let p = player_index as int;
    let queue = before.players@[p].tasks.queue();
    &&& before.players@[p].choices is None
    &&& queue.len() > 0
    &&& carried_out(queue[0], before, p)
    &&& exists|taken: Game| #[trigger] tasks_requeued(before, taken, p, queue.drop_first())
        && progressed(queue[0], taken, after, player_index)
}

/// Whether each game of the trace follows the one before it by one task of the player.
pub open spec fn runs_tasks(trace: Seq<Game>, player_index: ids::PlayerIndex) -> bool {
    forall|k: int| 0 <= k < trace.len() - 1 ==> task_step(#[trigger] trace[k], trace[k + 1], player_index)
}

/// Whether the run of the player's tasks stops at `last` with `after` and the result: a
/// decision to make stops it with nothing reported done; an empty queue stops it, reporting
/// progress where some task was carried out (`any`); a first task that cannot be carried out
/// stops it with an error, taken out of the queue.
pub open spec fn tasks_stop(last: Game, after: Game, player_index: ids::PlayerIndex, r: SlayResult<TaskProgressResult>, any: bool) -> bool {
    let p = player_index as int;
    let queue = last.players@[p].tasks.queue();
    match r {
        Ok(result) => {
            ||| last.players@[p].choices is Some && result == TaskProgressResult::NothingDone && after == last
            ||| {
                &&& last.players@[p].choices is None
                &&& queue.len() == 0
                &&& result == (if any { TaskProgressResult::ProgressMade } else { TaskProgressResult::NothingDone })
                &&& tasks_requeued(last, after, p, queue)
            }
        },
        Err(_) => {
            &&& last.players@[p].choices is None
            &&& queue.len() > 0
            &&& !carried_out(queue[0], last, p)
            &&& after.players@.len() == last.players@.len()
            &&& after.players@[p].tasks.queue() == queue.drop_first()
        },
    }
}

/// Carries out the player's tasks, one after the other, until none is left, the player has
/// a decision to make, or a task cannot be carried out.
///
/// The game goes through a run of the tasks (`runs_tasks`) from the game given, and the run
/// stops as `tasks_stop` says: with a decision to make, nothing is reported done; with the
/// queue empty, progress is reported where some task was carried out; a task that cannot be
/// carried out fails.
pub fn continue_tasks(context: &mut GameBookKeeping, game: &mut Game, player_index: ids::PlayerIndex) -> (r: SlayResult<TaskProgressResult>)
    requires
        player_index < old(game).players@.len(),
        old(game).players@[player_index as int].tasks.well_formed(),
    ensures
        exists|trace: Seq<Game>| {
            &&& trace.len() > 0
            &&& trace[0] == *old(game)
            &&& #[trigger] runs_tasks(trace, player_index)
            &&& tasks_stop(trace.last(), *final(game), player_index, r, trace.len() > 1)
        },
        final(game).players@.len() == old(game).players@.len(),
        old(game).players@[player_index as int].choices is Some ==> r == Ok::<TaskProgressResult, SlayError>(TaskProgressResult::NothingDone)
            && *final(game) == *old(game),
        r is Ok ==> r != Ok::<TaskProgressResult, SlayError>(TaskProgressResult::TaskComplete),
        old(game).players@[player_index as int].choices is None && old(game).players@[player_index as int].tasks.queue().len() == 0
            ==> r == Ok::<TaskProgressResult, SlayError>(TaskProgressResult::NothingDone),
        old(game).players@[player_index as int].choices is None && old(game).players@[player_index as int].tasks.queue().len() > 0
            && !carried_out(old(game).players@[player_index as int].tasks.queue()[0], *old(game), player_index as int) ==> r is Err,
{
    let mut result = TaskProgressResult::NothingDone;
    let ghost mut trace: Seq<Game> = seq![*game];
    loop
        invariant
            player_index < game.players@.len() == old(game).players@.len(),
            game.players@[player_index as int].tasks.well_formed(),
            trace.len() > 0,
            trace[0] == *old(game),
            trace.last() == *game,
            runs_tasks(trace, player_index),
            result == (if trace.len() > 1 { TaskProgressResult::ProgressMade } else { TaskProgressResult::NothingDone }),
        decreases queue_measure(game.players@[player_index as int].tasks.queue()).0, queue_measure(game.players@[player_index as int].tasks.queue()).1,
    {
        if game.players[player_index].choices.is_some() {
            let r = Ok(TaskProgressResult::NothingDone);
            assert(tasks_stop(trace.last(), *game, player_index, r, trace.len() > 1));
            return r;
        }
        let ghost queue = game.players@[player_index as int].tasks.queue();
        let ghost before_take = *game;
        match game.take_current_task(player_index) {
            Some(task) => {
                let ghost taken = *game;
                proof {
                    lemma_carried_out_ignores_queue(task, before_take, taken, player_index as int);
                    assert(tasks_requeued(before_take, taken, player_index as int, queue.drop_first()));
                }
                let progress = task.make_progress(context, game, player_index);
                match progress {
                    Ok(_) => {
                        result = TaskProgressResult::ProgressMade;
                        proof {
                            assert(task_step(before_take, *game, player_index));
                            let old_trace = trace;
                            trace = trace.push(*game);
                            assert forall|k: int| 0 <= k < trace.len() - 1 implies task_step(#[trigger] trace[k], trace[k + 1], player_index) by {
                                if k < old_trace.len() - 1 {
                                    assert(trace[k] == old_trace[k] && trace[k + 1] == old_trace[k + 1]);
                                } else {
                                    assert(trace[k] == before_take);
                                }
                            }
                            let rest = queue.drop_first();
                            assert(queue =~= seq![task] + rest);
                            lemma_ability_count_append(seq![task], rest);
                            assert(seq![task].drop_last() =~= Seq::<PlayerTask>::empty());
                            match task {
                                PlayerTask::UseAbility(u) => {
                                    lemma_ability_tasks_use_no_ability(u.ability);
                                    lemma_ability_count_append(u.ability.spec_tasks(), rest);
                                },
                                _ => {},
                            }
                        }
                    },
                    Err(e) => {
                        let r = Err(e);
                        assert(tasks_stop(trace.last(), *game, player_index, r, trace.len() > 1));
                        return r;
                    },
                }
            },
            None => {
                let r = Ok(result);
                assert(tasks_stop(trace.last(), *game, player_index, r, trace.len() > 1));
                return r;
            },
        }
    }
}
} // verus!
