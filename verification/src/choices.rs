use vstd::prelude::*;

use crate::deadlines::Timeline;
use crate::ids;
use crate::showdown::completion::Completion;
use crate::showdown::roll_modification::{ModificationPath, RollModificationChoiceType};
use crate::specs::cards::SlayCardSpec;
use crate::specs::modifier::ModifierKinds;
use crate::state::deck::DeckPath;
use crate::tasks::{copy_tasks, PlayerTask};

verus! {

/// Where a card is.
#[derive(Debug, Clone, Copy, PartialEq, Eq, Structural)]
pub enum CardPath {
    /// The top card of a stack in a deck.
    TopCardIn(DeckPath, ids::CardId),
    /// A card stacked under the top card with the first id, in a deck.
    ModifyingCardIn(DeckPath, ids::CardId, ids::CardId),
    /// A player's party leader.
    Leader(ids::PlayerIndex, ids::CardId),
}

/// What part of the table an option is shown on.
#[derive(Debug, Clone, Copy, PartialEq, Eq, Structural)]
pub enum DisplayPath {
    DeckAt(DeckPath),
    CardAt(CardPath),
    Player(ids::PlayerIndex),
    Roll(ModificationPath),
}

/// What kind of decision a player is asked to make.
#[derive(Debug, Clone, Copy, PartialEq, Eq, Structural)]
pub enum ChoicesType {
    ModifyRoll,
    ModifyChallenge,
    OfferChallenges,
}

/// What choosing an option means.
#[derive(Debug, Clone, Copy, PartialEq, Eq, Structural)]
pub enum Choice {
    SetCompletion(Completion),
    Modify(ModificationPath, ModifierKinds, i32),
    Challenge,
}

/// How an option is shown.
#[derive(Debug, Clone, Copy, PartialEq, Eq, Structural)]
pub enum ChoiceDisplayType {
    SetCompletion(Completion),
    Modify(RollModificationChoiceType),
    Challenge(SlayCardSpec),
    Card_(SlayCardSpec),
}

impl ChoiceDisplayType {
    /// A modification of the roll at `path` in a challenge.
    pub open spec fn spec_belongs_to_challenge_roll(self, path: ModificationPath) -> bool {
        match self {
            ChoiceDisplayType::Modify(modification) => modification.spec_path() == path,
            _ => false,
        }
    }

    /// A modification of either roll of a challenge.
    pub open spec fn spec_belongs_to_challenge(self) -> bool {
        match self {
            ChoiceDisplayType::Modify(modification) => modification.spec_path() != ModificationPath::Roll,
            _ => false,
        }
    }

    pub fn belongs_to_challenge_roll(&self, path: ModificationPath) -> (r: bool)
        ensures
            r == self.spec_belongs_to_challenge_roll(path),
    {
        match self {
            ChoiceDisplayType::Modify(modification) => modification.get_path() == path,
            _ => false,
        }
    }

    pub fn belongs_to_challenge(&self) -> (r: bool)
        ensures
            r == self.spec_belongs_to_challenge(),
    {
        match self {
            ChoiceDisplayType::Modify(modification) => modification.get_path() != ModificationPath::Roll,
            _ => false,
        }
    }
}

/// How and where an option is shown.
#[derive(Debug, Clone, Copy, PartialEq, Eq, Structural)]
pub struct ChoiceDisplay {
    pub display_type: ChoiceDisplayType,
    pub represents: Option<DisplayPath>,
}

impl ChoiceDisplay {
    /// A modification of the roll of a roll showdown.
    pub open spec fn spec_belongs_to_roll(self) -> bool {
        match self.display_type {
            ChoiceDisplayType::Modify(modification) => modification.spec_path() == ModificationPath::Roll,
            _ => false,
        }
    }

    /// A challenge to an offer.
    pub open spec fn spec_belongs_to_offer(self) -> bool {
        self.display_type is Challenge
    }

    pub fn belongs_to_roll(&self) -> (r: bool)
        ensures
            r == self.spec_belongs_to_roll(),
    {
        match self.display_type {
            ChoiceDisplayType::Modify(modification) => modification.get_path() == ModificationPath::Roll,
            _ => false,
        }
    }

    pub fn belongs_to_offer(&self) -> (r: bool)
        ensures
            r == self.spec_belongs_to_offer(),
    {
        match self.display_type {
            ChoiceDisplayType::Challenge(_) => true,
            _ => false,
        }
    }
}

/// An option offered to a player: what it means, how it is shown, and the tasks that
/// choosing it gives the player.
#[derive(Debug, Clone)]
pub struct TasksChoice {
    pub choice_id: ids::ChoiceId,
    pub choice: Choice,
    pub display: ChoiceDisplay,
    pub tasks: Vec<PlayerTask>,
}

/// An option as a player sees it.
#[derive(Debug, Clone, Copy, PartialEq, Eq, Structural)]
pub struct ChoicePerspective {
    pub choice_id: ids::ChoiceId,
    pub choice: Choice,
    pub display: ChoiceDisplay,
}

impl TasksChoice {
    pub open spec fn spec_to_perspective(self) -> ChoicePerspective {
        ChoicePerspective { choice_id: self.choice_id, choice: self.choice, display: self.display }
    }

    pub fn new(choice_id: ids::ChoiceId, choice: Choice, display_type: ChoiceDisplayType, tasks: Vec<PlayerTask>) -> (r: Self)
        ensures
            r.choice_id == choice_id,
            r.choice == choice,
            r.display == (ChoiceDisplay { display_type, represents: None }),
            r.tasks@ == tasks@,
    {
        TasksChoice { choice_id, choice, display: ChoiceDisplay { display_type, represents: None }, tasks }
    }

    pub fn get_id(&self) -> (r: ids::ChoiceId)
        ensures
            r == self.choice_id,
    {
        self.choice_id
    }

    pub fn to_perspective(&self) -> (r: ChoicePerspective)
        ensures
            r == self.spec_to_perspective(),
    {
        ChoicePerspective { choice_id: self.choice_id, choice: self.choice, display: self.display }
    }

    /// A copy of the option.
    pub fn copy(&self) -> (r: Self)
        ensures
            r.choice_id == self.choice_id,
            r.choice == self.choice,
            r.display == self.display,
            r.tasks@ == self.tasks@,
    {
        TasksChoice { choice_id: self.choice_id, choice: self.choice, display: self.display, tasks: copy_tasks(&self.tasks) }
    }
}

/// The decision a player is asked to make: the options, the one taken if the time runs
/// out, and until when the player may decide.
#[derive(Debug, Clone)]
pub struct Choices {
    pub choices_type: ChoicesType,
    pub default_choice: Option<ids::ChoiceId>,
    pub timeline: Timeline,
    pub options: Vec<TasksChoice>,
}

/// A decision as the deciding player sees it.
#[derive(Debug, Clone, PartialEq)]
pub struct ChoicesPerspective {
    pub choices_type: ChoicesType,
    pub default_choice: Option<ids::ChoiceId>,
    pub timeline: Timeline,
    pub options: Vec<ChoicePerspective>,
}

impl Choices {
    /// Whether the two decisions agree in every part: kind, default, period, and each
    /// option's id, kind, display and tasks.
    pub open spec fn same_as(self, other: Choices) -> bool {
        &&& self.choices_type == other.choices_type
        &&& self.default_choice == other.default_choice
        &&& self.timeline == other.timeline
        &&& self.options@.len() == other.options@.len()
        &&& forall|i: int| 0 <= i < self.options@.len() ==> {
            &&& (#[trigger] self.options@[i]).choice_id == other.options@[i].choice_id
            &&& self.options@[i].choice == other.options@[i].choice
            &&& self.options@[i].display == other.options@[i].display
            &&& self.options@[i].tasks@ == other.options@[i].tasks@
        }
    }

    pub open spec fn option_perspectives(self) -> Seq<ChoicePerspective> {
        self.options@.map_values(|option: TasksChoice| option.spec_to_perspective())
    }

    /// Whether one of the options has this id.
    pub open spec fn has_option(self, choice_id: ids::ChoiceId) -> bool {
        exists|i: int| 0 <= i < self.options@.len() && #[trigger] self.options@[i].choice_id == choice_id
    }

    pub fn to_perspective(&self) -> (r: ChoicesPerspective)
        ensures
            r.choices_type == self.choices_type,
            r.default_choice == self.default_choice,
            r.timeline == self.timeline,
            r.options@ == self.option_perspectives(),
    {
        let mut options: Vec<ChoicePerspective> = Vec::new();
        let mut i: usize = 0;
        while i < self.options.len()
            invariant
                i <= self.options@.len(),
                options@ == self.options@.take(i as int).map_values(|option: TasksChoice| option.spec_to_perspective()),
            decreases self.options@.len() - i,
        {
            options.push(self.options[i].to_perspective());
            i = i + 1;
            assert(options@ =~= self.options@.take(i as int).map_values(|option: TasksChoice| option.spec_to_perspective()));
        }
        assert(self.options@.take(i as int) =~= self.options@);
        ChoicesPerspective {
            choices_type: self.choices_type,
            default_choice: self.default_choice,
            timeline: self.timeline,
            options,
        }
    }

    /// A copy of the decision.
    pub fn copy(&self) -> (r: Self)
        ensures
            r.same_as(*self),
            r.choices_type == self.choices_type,
            r.default_choice == self.default_choice,
            r.timeline == self.timeline,
            r.options@.len() == self.options@.len(),
            forall|i: int| 0 <= i < r.options@.len() ==> {
                &&& (#[trigger] r.options@[i]).choice_id == self.options@[i].choice_id
                &&& r.options@[i].choice == self.options@[i].choice
                &&& r.options@[i].display == self.options@[i].display
                &&& r.options@[i].tasks@ == self.options@[i].tasks@
            },
    {
        let mut options: Vec<TasksChoice> = Vec::new();
        let mut i: usize = 0;
        while i < self.options.len()
            invariant
                i <= self.options@.len(),
                options@.len() == i,
                forall|j: int| 0 <= j < i ==> {
                    &&& (#[trigger] options@[j]).choice_id == self.options@[j].choice_id
                    &&& options@[j].choice == self.options@[j].choice
                    &&& options@[j].display == self.options@[j].display
                    &&& options@[j].tasks@ == self.options@[j].tasks@
                },
            decreases self.options@.len() - i,
        {
            options.push(self.options[i].copy());
            i = i + 1;
        }
        Choices {
            choices_type: self.choices_type,
            default_choice: self.default_choice,
            timeline: self.timeline,
            options,
        }
    }
}

/// Which options of a decision a part of the table shows.
#[derive(Debug, Clone, Copy, PartialEq, Eq, Structural)]
pub enum OptionFilter {
    /// Modifications of the roll of a roll showdown.
    Roll,
    /// Challenges to an offer.
    Offer,
    /// Modifications of either roll of a challenge.
    Challenge,
    /// Modifications of one roll of a challenge.
    ChallengeRoll(ModificationPath),
    /// Options shown on a given part of the table.
    At(DisplayPath),
}

/// The options that the filter keeps, in order.
pub open spec fn filtered_options(options: Seq<ChoicePerspective>, filter: OptionFilter) -> Seq<ChoicePerspective>
    decreases options.len(),
{
    if options.len() == 0 {
        Seq::empty()
    } else {
        let rest = filtered_options(options.drop_last(), filter);
        if filter.keeps(options.last()) {
            rest.push(options.last())
        } else {
            rest
        }
    }
}

impl OptionFilter {
    pub open spec fn keeps(self, option: ChoicePerspective) -> bool {
        match self {
            OptionFilter::Roll => option.display.spec_belongs_to_roll(),
            OptionFilter::Offer => option.display.spec_belongs_to_offer(),
            OptionFilter::Challenge => option.display.display_type.spec_belongs_to_challenge(),
            OptionFilter::ChallengeRoll(path) => option.display.display_type.spec_belongs_to_challenge_roll(path),
            OptionFilter::At(path) => option.display.represents == Some(path),
        }
    }

    fn exec_keeps(&self, option: &ChoicePerspective) -> (r: bool)
        ensures
            r == self.keeps(*option),
    {
        match self {
            OptionFilter::Roll => option.display.belongs_to_roll(),
            OptionFilter::Offer => option.display.belongs_to_offer(),
            OptionFilter::Challenge => option.display.display_type.belongs_to_challenge(),
            OptionFilter::ChallengeRoll(path) => option.display.display_type.belongs_to_challenge_roll(*path),
            OptionFilter::At(path) => option.display.represents == Some(*path),
        }
    }
}

impl ChoicesPerspective {
    /// The options that the filter keeps, in order.
    pub fn keep_where(&self, filter: OptionFilter) -> (r: Vec<ChoicePerspective>)
        ensures
            r@ == filtered_options(self.options@, filter),
    {
        let mut r: Vec<ChoicePerspective> = Vec::new();
        let mut i: usize = 0;
        while i < self.options.len()
            invariant
                i <= self.options@.len(),
                r@ == filtered_options(self.options@.take(i as int), filter),
            decreases self.options@.len() - i,
        {
            let option = self.options[i];
            assert(self.options@.take(i + 1).drop_last() =~= self.options@.take(i as int));
            if filter.exec_keeps(&option) {
                r.push(option);
            }
            i = i + 1;
        }
        assert(self.options@.take(i as int) =~= self.options@);
        r
    }

    /// The options shown on the given part of the table.
    pub fn represented_by(&self, path: &DisplayPath) -> (r: Vec<ChoicePerspective>)
        ensures
            r@ == filtered_options(self.options@, OptionFilter::At(*path)),
    {
        self.keep_where(OptionFilter::At(*path))
    }
}

} // verus!
