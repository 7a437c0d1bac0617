use vstd::prelude::*;

use crate::ids;
use crate::showdown::consequences::{Comparison, Condition, RollConsequence, RollConsequences};
use crate::specification::{HeroType, MonsterRequirements, MonsterSpec};
use crate::state::player::HeroTypeCounter;
use crate::specs::cards::card_type::SlayCardSpec;
use crate::status_effects::effect::PlayerStatusEffect;
use crate::tasks::{MonsterSlainTask, PlayerTask};

verus! {

/// The monster cards.
#[derive(Debug, Clone, Copy, PartialEq, Eq, Structural)]
pub enum Monster {
    AnuranCauldron,
    TitanWyvern,
    DarkDragonKing,
    AbyssQueen,
    RexMajor,
    CorruptedSabretooth,
    CrownedSerpent,
    WarwornOwlbear,
    Dracos,
    Malammoth,
    Bloodwing,
    ArcticAries,
    MegaSlime,
    Orthus,
    Terratuga,
}

/// What a monster card does, as plain values.
pub struct MonsterSpecView {
    pub win_condition: Condition,
    pub win_tasks: Seq<PlayerTask>,
    pub loss_condition: Condition,
    pub loss_tasks: Seq<PlayerTask>,
    pub requirements: Seq<MonsterRequirements>,
    pub modifiers: Seq<PlayerStatusEffect>,
}

/// What each monster does.
pub open spec fn monster_spec_view(monster: Monster) -> MonsterSpecView {
    match monster {
        Monster::AnuranCauldron => MonsterSpecView {
            win_condition: Condition { comparison: Comparison::GE, threshold: 7 },
            win_tasks: seq![],
            loss_condition: Condition { comparison: Comparison::LE, threshold: 6 },
            loss_tasks: seq![PlayerTask::Sacrifice(1)],
            requirements: seq![MonsterRequirements::Hero, MonsterRequirements::Hero, MonsterRequirements::Hero],
            modifiers: seq![PlayerStatusEffect::AddToAllRolls(1)],
        },
        Monster::TitanWyvern => MonsterSpecView {
            win_condition: Condition { comparison: Comparison::GE, threshold: 8 },
            win_tasks: seq![],
            loss_condition: Condition { comparison: Comparison::LE, threshold: 4 },
            loss_tasks: seq![PlayerTask::Discard(2)],
            requirements: seq![MonsterRequirements::HeroType(HeroType::Fighter), MonsterRequirements::Hero],
            modifiers: seq![PlayerStatusEffect::AddToRollForChallenge(1)],
        },
        Monster::DarkDragonKing => MonsterSpecView {
            win_condition: Condition { comparison: Comparison::GE, threshold: 400 },
            win_tasks: seq![],
            loss_condition: Condition { comparison: Comparison::LE, threshold: -1i32 },
            loss_tasks: seq![PlayerTask::Discard(2)],
            requirements: seq![MonsterRequirements::HeroType(HeroType::Bard), MonsterRequirements::Hero],
            modifiers: seq![PlayerStatusEffect::AddToRollForAnyAbility(1)],
        },
        Monster::AbyssQueen => MonsterSpecView {
            win_condition: Condition { comparison: Comparison::GE, threshold: 8 },
            win_tasks: seq![],
            loss_condition: Condition { comparison: Comparison::LE, threshold: 5 },
            loss_tasks: seq![PlayerTask::Sacrifice(1)],
            requirements: seq![MonsterRequirements::Hero, MonsterRequirements::Hero],
            modifiers: seq![PlayerStatusEffect::AddOnModify],
        },
        Monster::RexMajor => MonsterSpecView {
            win_condition: Condition { comparison: Comparison::GE, threshold: 8 },
            win_tasks: seq![],
            loss_condition: Condition { comparison: Comparison::LE, threshold: 4 },
            loss_tasks: seq![PlayerTask::Discard(2)],
            requirements: seq![MonsterRequirements::HeroType(HeroType::Gaurdian), MonsterRequirements::Hero],
            modifiers: seq![PlayerStatusEffect::RevealModifiersAndDrawAgain],
        },
        Monster::CorruptedSabretooth => MonsterSpecView {
            win_condition: Condition { comparison: Comparison::GE, threshold: 9 },
            win_tasks: seq![PlayerTask::Draw(1)],
            loss_condition: Condition { comparison: Comparison::LE, threshold: 6 },
            loss_tasks: seq![PlayerTask::Sacrifice(1)],
            requirements: seq![MonsterRequirements::Hero, MonsterRequirements::Hero, MonsterRequirements::Hero],
            modifiers: seq![PlayerStatusEffect::StealInsteadOfSacrifice],
        },
        Monster::CrownedSerpent => MonsterSpecView {
            win_condition: Condition { comparison: Comparison::GE, threshold: 10 },
            win_tasks: seq![],
            loss_condition: Condition { comparison: Comparison::LE, threshold: 7 },
            loss_tasks: seq![PlayerTask::Sacrifice(1)],
            requirements: seq![MonsterRequirements::Hero, MonsterRequirements::Hero],
            modifiers: seq![PlayerStatusEffect::DrawOnModify],
        },
        Monster::WarwornOwlbear => MonsterSpecView {
            win_condition: Condition { comparison: Comparison::GE, threshold: 8 },
            win_tasks: seq![],
            loss_condition: Condition { comparison: Comparison::LE, threshold: 4 },
            loss_tasks: seq![PlayerTask::Discard(2)],
            requirements: seq![MonsterRequirements::HeroType(HeroType::Thief), MonsterRequirements::Hero],
            modifiers: seq![PlayerStatusEffect::ItemsCannotBeChallenged],
        },
        Monster::Dracos => MonsterSpecView {
            win_condition: Condition { comparison: Comparison::LE, threshold: 5 },
            win_tasks: seq![],
            loss_condition: Condition { comparison: Comparison::GE, threshold: 8 },
            loss_tasks: seq![PlayerTask::Sacrifice(1)],
            requirements: seq![MonsterRequirements::Hero],
            modifiers: seq![PlayerStatusEffect::DrawOnDestroy],
        },
        Monster::Malammoth => MonsterSpecView {
            win_condition: Condition { comparison: Comparison::GE, threshold: 8 },
            win_tasks: seq![],
            loss_condition: Condition { comparison: Comparison::LE, threshold: 4 },
            loss_tasks: seq![PlayerTask::Discard(2)],
            requirements: seq![MonsterRequirements::Hero, MonsterRequirements::HeroType(HeroType::Ranger)],
            modifiers: seq![PlayerStatusEffect::PlayItemOnDraw],
        },
        Monster::Bloodwing => MonsterSpecView {
            win_condition: Condition { comparison: Comparison::GE, threshold: 9 },
            win_tasks: seq![],
            loss_condition: Condition { comparison: Comparison::LE, threshold: 6 },
            loss_tasks: seq![PlayerTask::Sacrifice(1)],
            requirements: seq![MonsterRequirements::Hero, MonsterRequirements::Hero],
            modifiers: seq![PlayerStatusEffect::DiscardOnChallenge],
        },
        Monster::ArcticAries => MonsterSpecView {
            win_condition: Condition { comparison: Comparison::GE, threshold: 10 },
            win_tasks: seq![],
            loss_condition: Condition { comparison: Comparison::LE, threshold: 6 },
            loss_tasks: seq![PlayerTask::Sacrifice(1)],
            requirements: seq![MonsterRequirements::Hero],
            modifiers: seq![PlayerStatusEffect::DrawOnSuccessfulAbility],
        },
        Monster::MegaSlime => MonsterSpecView {
            win_condition: Condition { comparison: Comparison::GE, threshold: 8 },
            win_tasks: seq![PlayerTask::Draw(2)],
            loss_condition: Condition { comparison: Comparison::LE, threshold: 7 },
            loss_tasks: seq![PlayerTask::Sacrifice(2)],
            requirements: seq![MonsterRequirements::Hero, MonsterRequirements::Hero, MonsterRequirements::Hero, MonsterRequirements::Hero],
            modifiers: seq![PlayerStatusEffect::ExtraActionPoint],
        },
        Monster::Orthus => MonsterSpecView {
            win_condition: Condition { comparison: Comparison::GE, threshold: 8 },
            win_tasks: seq![],
            loss_condition: Condition { comparison: Comparison::LE, threshold: 4 },
            loss_tasks: seq![PlayerTask::Sacrifice(1)],
            requirements: seq![MonsterRequirements::Hero, MonsterRequirements::HeroType(HeroType::Wizard)],
            modifiers: seq![PlayerStatusEffect::PlayMagicOnDraw],
        },
        Monster::Terratuga => MonsterSpecView {
            win_condition: Condition { comparison: Comparison::GE, threshold: 11 },
            win_tasks: seq![],
            loss_condition: Condition { comparison: Comparison::LE, threshold: 7 },
            loss_tasks: seq![PlayerTask::Discard(2)],
            requirements: seq![MonsterRequirements::Hero],
            modifiers: seq![PlayerStatusEffect::UndestroyableHeros],
        },
    }
}

/// Whether `spec` says what `monster` does.
pub open spec fn monster_spec_matches(spec: MonsterSpec, monster: Monster) -> bool {
    let view = monster_spec_view(monster);
    &&& spec.consequences.success.condition == view.win_condition
    &&& spec.consequences.success.tasks@ == view.win_tasks
    &&& spec.consequences.loss.is_some()
    &&& spec.consequences.loss.unwrap().condition == view.loss_condition
    &&& spec.consequences.loss.unwrap().tasks@ == view.loss_tasks
    &&& spec.requirements@ == view.requirements
    &&& spec.modifiers@ == view.modifiers
}

/// Whatever the roll, a monster's attack never both slays it and brings its punishment: its
/// two conditions face opposite ways (one is met from above, the other from below) and do
/// not overlap.  Every monster is slain on a high roll, but Dracos, which is slain on a low one.
pub proof fn lemma_monster_conditions(monster: Monster)
    ensures
        (monster_spec_view(monster).win_condition.comparison == Comparison::GE)
            <==> (monster_spec_view(monster).loss_condition.comparison == Comparison::LE),
        forall|roll: int| !(#[trigger] monster_spec_view(monster).win_condition.spec_applies_to(roll)
            && monster_spec_view(monster).loss_condition.spec_applies_to(roll)),
        (monster_spec_view(monster).win_condition.comparison == Comparison::LE) <==> monster == Monster::Dracos,
{
}

impl Monster {
    pub fn label(&self) -> (r: &'static str)
        ensures
            r@ == SlayCardSpec::MonsterCard(*self).spec_label(),
    {
        SlayCardSpec::MonsterCard(*self).label()
    }

    /// The consequences of attacking this monster, whose card has the given id.
    pub fn get_consequences(&self, card_id: ids::CardId) -> (r: RollConsequences)
        ensures
            r.success.condition == monster_spec_view(*self).win_condition,
            r.success.tasks@ == monster_spec_view(*self).win_tasks.push(
                PlayerTask::MonsterSlain(MonsterSlainTask { card_id }),
            ),
            r.loss.is_some(),
            r.loss.unwrap().condition == monster_spec_view(*self).loss_condition,
            r.loss.unwrap().tasks@ == monster_spec_view(*self).loss_tasks,
    {
        self.create_spec().get_consequences(card_id)
    }

    pub fn create_spec(&self) -> (r: MonsterSpec)
        ensures
            monster_spec_matches(r, *self),
    {
        match self {
            Monster::AnuranCauldron => {
                let spec = MonsterSpec {
                    consequences: RollConsequences {
                        success: RollConsequence { condition: Condition::ge(7), tasks: vec![] },
                        loss: Some(RollConsequence { condition: Condition::le(6), tasks: vec![PlayerTask::Sacrifice(1)] }),
                    },
                    requirements: vec![MonsterRequirements::Hero, MonsterRequirements::Hero, MonsterRequirements::Hero],
                    modifiers: vec![PlayerStatusEffect::AddToAllRolls(1)],
                };
                proof {
                    let view = monster_spec_view(Monster::AnuranCauldron);
                    assert(spec.consequences.success.tasks@ =~= view.win_tasks);
                    assert(spec.consequences.loss.unwrap().tasks@ =~= view.loss_tasks);
                    assert(spec.requirements@ =~= view.requirements);
                    assert(spec.modifiers@ =~= view.modifiers);
                }
                spec
            },
            Monster::TitanWyvern => {
                let spec = MonsterSpec {
                    consequences: RollConsequences {
                        success: RollConsequence { condition: Condition::ge(8), tasks: vec![] },
                        loss: Some(RollConsequence { condition: Condition::le(4), tasks: vec![PlayerTask::Discard(2)] }),
                    },
                    requirements: vec![MonsterRequirements::HeroType(HeroType::Fighter), MonsterRequirements::Hero],
                    modifiers: vec![PlayerStatusEffect::AddToRollForChallenge(1)],
                };
                proof {
                    let view = monster_spec_view(Monster::TitanWyvern);
                    assert(spec.consequences.success.tasks@ =~= view.win_tasks);
                    assert(spec.consequences.loss.unwrap().tasks@ =~= view.loss_tasks);
                    assert(spec.requirements@ =~= view.requirements);
                    assert(spec.modifiers@ =~= view.modifiers);
                }
                spec
            },
            Monster::DarkDragonKing => {
                let spec = MonsterSpec {
                    consequences: RollConsequences {
                        success: RollConsequence { condition: Condition::ge(400), tasks: vec![] },
                        loss: Some(RollConsequence { condition: Condition::le(-1), tasks: vec![PlayerTask::Discard(2)] }),
                    },
                    requirements: vec![MonsterRequirements::HeroType(HeroType::Bard), MonsterRequirements::Hero],
                    modifiers: vec![PlayerStatusEffect::AddToRollForAnyAbility(1)],
                };
                proof {
                    let view = monster_spec_view(Monster::DarkDragonKing);
                    assert(spec.consequences.success.tasks@ =~= view.win_tasks);
                    assert(spec.consequences.loss.unwrap().tasks@ =~= view.loss_tasks);
                    assert(spec.requirements@ =~= view.requirements);
                    assert(spec.modifiers@ =~= view.modifiers);
                }
                spec
            },
            Monster::AbyssQueen => {
                let spec = MonsterSpec {
                    consequences: RollConsequences {
                        success: RollConsequence { condition: Condition::ge(8), tasks: vec![] },
                        loss: Some(RollConsequence { condition: Condition::le(5), tasks: vec![PlayerTask::Sacrifice(1)] }),
                    },
                    requirements: vec![MonsterRequirements::Hero, MonsterRequirements::Hero],
                    modifiers: vec![PlayerStatusEffect::AddOnModify],
                };
                proof {
                    let view = monster_spec_view(Monster::AbyssQueen);
                    assert(spec.consequences.success.tasks@ =~= view.win_tasks);
                    assert(spec.consequences.loss.unwrap().tasks@ =~= view.loss_tasks);
                    assert(spec.requirements@ =~= view.requirements);
                    assert(spec.modifiers@ =~= view.modifiers);
                }
                spec
            },
            Monster::RexMajor => {
                let spec = MonsterSpec {
                    consequences: RollConsequences {
                        success: RollConsequence { condition: Condition::ge(8), tasks: vec![] },
                        loss: Some(RollConsequence { condition: Condition::le(4), tasks: vec![PlayerTask::Discard(2)] }),
                    },
                    requirements: vec![MonsterRequirements::HeroType(HeroType::Gaurdian), MonsterRequirements::Hero],
                    modifiers: vec![PlayerStatusEffect::RevealModifiersAndDrawAgain],
                };
                proof {
                    let view = monster_spec_view(Monster::RexMajor);
                    assert(spec.consequences.success.tasks@ =~= view.win_tasks);
                    assert(spec.consequences.loss.unwrap().tasks@ =~= view.loss_tasks);
                    assert(spec.requirements@ =~= view.requirements);
                    assert(spec.modifiers@ =~= view.modifiers);
                }
                spec
            },
            Monster::CorruptedSabretooth => {
                let spec = MonsterSpec {
                    consequences: RollConsequences {
                        success: RollConsequence { condition: Condition::ge(9), tasks: vec![PlayerTask::Draw(1)] },
                        loss: Some(RollConsequence { condition: Condition::le(6), tasks: vec![PlayerTask::Sacrifice(1)] }),
                    },
                    requirements: vec![MonsterRequirements::Hero, MonsterRequirements::Hero, MonsterRequirements::Hero],
                    modifiers: vec![PlayerStatusEffect::StealInsteadOfSacrifice],
                };
                proof {
                    let view = monster_spec_view(Monster::CorruptedSabretooth);
                    assert(spec.consequences.success.tasks@ =~= view.win_tasks);
                    assert(spec.consequences.loss.unwrap().tasks@ =~= view.loss_tasks);
                    assert(spec.requirements@ =~= view.requirements);
                    assert(spec.modifiers@ =~= view.modifiers);
                }
                spec
            },
            Monster::CrownedSerpent => {
                let spec = MonsterSpec {
                    consequences: RollConsequences {
                        success: RollConsequence { condition: Condition::ge(10), tasks: vec![] },
                        loss: Some(RollConsequence { condition: Condition::le(7), tasks: vec![PlayerTask::Sacrifice(1)] }),
                    },
                    requirements: vec![MonsterRequirements::Hero, MonsterRequirements::Hero],
                    modifiers: vec![PlayerStatusEffect::DrawOnModify],
                };
                proof {
                    let view = monster_spec_view(Monster::CrownedSerpent);
                    assert(spec.consequences.success.tasks@ =~= view.win_tasks);
                    assert(spec.consequences.loss.unwrap().tasks@ =~= view.loss_tasks);
                    assert(spec.requirements@ =~= view.requirements);
                    assert(spec.modifiers@ =~= view.modifiers);
                }
                spec
            },
            Monster::WarwornOwlbear => {
                let spec = MonsterSpec {
                    consequences: RollConsequences {
                        success: RollConsequence { condition: Condition::ge(8), tasks: vec![] },
                        loss: Some(RollConsequence { condition: Condition::le(4), tasks: vec![PlayerTask::Discard(2)] }),
                    },
                    requirements: vec![MonsterRequirements::HeroType(HeroType::Thief), MonsterRequirements::Hero],
                    modifiers: vec![PlayerStatusEffect::ItemsCannotBeChallenged],
                };
                proof {
                    let view = monster_spec_view(Monster::WarwornOwlbear);
                    assert(spec.consequences.success.tasks@ =~= view.win_tasks);
                    assert(spec.consequences.loss.unwrap().tasks@ =~= view.loss_tasks);
                    assert(spec.requirements@ =~= view.requirements);
                    assert(spec.modifiers@ =~= view.modifiers);
                }
                spec
            },
            Monster::Dracos => {
                let spec = MonsterSpec {
                    consequences: RollConsequences {
                        success: RollConsequence { condition: Condition::le(5), tasks: vec![] },
                        loss: Some(RollConsequence { condition: Condition::ge(8), tasks: vec![PlayerTask::Sacrifice(1)] }),
                    },
                    requirements: vec![MonsterRequirements::Hero],
                    modifiers: vec![PlayerStatusEffect::DrawOnDestroy],
                };
                proof {
                    let view = monster_spec_view(Monster::Dracos);
                    assert(spec.consequences.success.tasks@ =~= view.win_tasks);
                    assert(spec.consequences.loss.unwrap().tasks@ =~= view.loss_tasks);
                    assert(spec.requirements@ =~= view.requirements);
                    assert(spec.modifiers@ =~= view.modifiers);
                }
                spec
            },
            Monster::Malammoth => {
                let spec = MonsterSpec {
                    consequences: RollConsequences {
                        success: RollConsequence { condition: Condition::ge(8), tasks: vec![] },
                        loss: Some(RollConsequence { condition: Condition::le(4), tasks: vec![PlayerTask::Discard(2)] }),
                    },
                    requirements: vec![MonsterRequirements::Hero, MonsterRequirements::HeroType(HeroType::Ranger)],
                    modifiers: vec![PlayerStatusEffect::PlayItemOnDraw],
                };
                proof {
                    let view = monster_spec_view(Monster::Malammoth);
                    assert(spec.consequences.success.tasks@ =~= view.win_tasks);
                    assert(spec.consequences.loss.unwrap().tasks@ =~= view.loss_tasks);
                    assert(spec.requirements@ =~= view.requirements);
                    assert(spec.modifiers@ =~= view.modifiers);
                }
                spec
            },
            Monster::Bloodwing => {
                let spec = MonsterSpec {
                    consequences: RollConsequences {
                        success: RollConsequence { condition: Condition::ge(9), tasks: vec![] },
                        loss: Some(RollConsequence { condition: Condition::le(6), tasks: vec![PlayerTask::Sacrifice(1)] }),
                    },
                    requirements: vec![MonsterRequirements::Hero, MonsterRequirements::Hero],
                    modifiers: vec![PlayerStatusEffect::DiscardOnChallenge],
                };
                proof {
                    let view = monster_spec_view(Monster::Bloodwing);
                    assert(spec.consequences.success.tasks@ =~= view.win_tasks);
                    assert(spec.consequences.loss.unwrap().tasks@ =~= view.loss_tasks);
                    assert(spec.requirements@ =~= view.requirements);
                    assert(spec.modifiers@ =~= view.modifiers);
                }
                spec
            },
            Monster::ArcticAries => {
                let spec = MonsterSpec {
                    consequences: RollConsequences {
                        success: RollConsequence { condition: Condition::ge(10), tasks: vec![] },
                        loss: Some(RollConsequence { condition: Condition::le(6), tasks: vec![PlayerTask::Sacrifice(1)] }),
                    },
                    requirements: vec![MonsterRequirements::Hero],
                    modifiers: vec![PlayerStatusEffect::DrawOnSuccessfulAbility],
                };
                proof {
                    let view = monster_spec_view(Monster::ArcticAries);
                    assert(spec.consequences.success.tasks@ =~= view.win_tasks);
                    assert(spec.consequences.loss.unwrap().tasks@ =~= view.loss_tasks);
                    assert(spec.requirements@ =~= view.requirements);
                    assert(spec.modifiers@ =~= view.modifiers);
                }
                spec
            },
            Monster::MegaSlime => {
                let spec = MonsterSpec {
                    consequences: RollConsequences {
                        success: RollConsequence { condition: Condition::ge(8), tasks: vec![PlayerTask::Draw(2)] },
                        loss: Some(RollConsequence { condition: Condition::le(7), tasks: vec![PlayerTask::Sacrifice(2)] }),
                    },
                    requirements: vec![MonsterRequirements::Hero, MonsterRequirements::Hero, MonsterRequirements::Hero, MonsterRequirements::Hero],
                    modifiers: vec![PlayerStatusEffect::ExtraActionPoint],
                };
                proof {
                    let view = monster_spec_view(Monster::MegaSlime);
                    assert(spec.consequences.success.tasks@ =~= view.win_tasks);
                    assert(spec.consequences.loss.unwrap().tasks@ =~= view.loss_tasks);
                    assert(spec.requirements@ =~= view.requirements);
                    assert(spec.modifiers@ =~= view.modifiers);
                }
                spec
            },
            Monster::Orthus => {
                let spec = MonsterSpec {
                    consequences: RollConsequences {
                        success: RollConsequence { condition: Condition::ge(8), tasks: vec![] },
                        loss: Some(RollConsequence { condition: Condition::le(4), tasks: vec![PlayerTask::Sacrifice(1)] }),
                    },
                    requirements: vec![MonsterRequirements::Hero, MonsterRequirements::HeroType(HeroType::Wizard)],
                    modifiers: vec![PlayerStatusEffect::PlayMagicOnDraw],
                };
                proof {
                    let view = monster_spec_view(Monster::Orthus);
                    assert(spec.consequences.success.tasks@ =~= view.win_tasks);
                    assert(spec.consequences.loss.unwrap().tasks@ =~= view.loss_tasks);
                    assert(spec.requirements@ =~= view.requirements);
                    assert(spec.modifiers@ =~= view.modifiers);
                }
                spec
            },
            Monster::Terratuga => {
                let spec = MonsterSpec {
                    consequences: RollConsequences {
                        success: RollConsequence { condition: Condition::ge(11), tasks: vec![] },
                        loss: Some(RollConsequence { condition: Condition::le(7), tasks: vec![PlayerTask::Discard(2)] }),
                    },
                    requirements: vec![MonsterRequirements::Hero],
                    modifiers: vec![PlayerStatusEffect::UndestroyableHeros],
                };
                proof {
                    let view = monster_spec_view(Monster::Terratuga);
                    assert(spec.consequences.success.tasks@ =~= view.win_tasks);
                    assert(spec.consequences.loss.unwrap().tasks@ =~= view.loss_tasks);
                    assert(spec.requirements@ =~= view.requirements);
                    assert(spec.modifiers@ =~= view.modifiers);
                }
                spec
            },
        }
    }
}

/// How many of the requirements are `requirement`.
pub open spec fn count_requirement(requirements: Seq<MonsterRequirements>, requirement: MonsterRequirements) -> nat
    decreases requirements.len(),
{
    if requirements.len() == 0 {
        0
    } else {
        count_requirement(requirements.drop_last(), requirement) + if requirements.last() == requirement { 1nat } else { 0nat }
    }
}

/// How many of the requirements ask for a hero of a given class, all classes together.
pub open spec fn typed_requirements(requirements: Seq<MonsterRequirements>) -> nat {
    count_requirement(requirements, MonsterRequirements::HeroType(HeroType::Bard))
        + count_requirement(requirements, MonsterRequirements::HeroType(HeroType::Wizard))
        + count_requirement(requirements, MonsterRequirements::HeroType(HeroType::Fighter))
        + count_requirement(requirements, MonsterRequirements::HeroType(HeroType::Gaurdian))
        + count_requirement(requirements, MonsterRequirements::HeroType(HeroType::Ranger))
        + count_requirement(requirements, MonsterRequirements::HeroType(HeroType::Thief))
}

/// The index of the first requirement that the party leader meets.
pub open spec fn leader_position(requirements: Seq<MonsterRequirements>, leader: HeroType) -> Option<int>
    decreases requirements.len(),
{
    if requirements.len() == 0 {
        None
    } else {
        match leader_position(requirements.drop_last(), leader) {
            Some(i) => Some(i),
            None => if requirements.last().spec_satisfied_by_party_leader(leader) { Some(requirements.len() - 1) } else { None },
        }
    }
}

/// The requirements left once the party leader meets the first one it can.
pub open spec fn after_leader(requirements: Seq<MonsterRequirements>, leader: HeroType) -> Seq<MonsterRequirements> {
    match leader_position(requirements, leader) {
        Some(i) => requirements.remove(i),
        None => requirements,
    }
}

/// Whether a party, with the counted heroes and the given leader, meets the requirements:
/// the leader meets one requirement of its class, if there is one; the heroes of each class
/// meet the requirements for that class; and the heroes left over outnumber the
/// requirements for any hero.
pub open spec fn requirements_met(counts: HeroTypeCounter, leader: HeroType, requirements: Seq<MonsterRequirements>) -> bool {
    let rest = after_leader(requirements, leader);
    &&& forall|t: HeroType| #[trigger] count_requirement(rest, MonsterRequirements::HeroType(t)) <= counts.count(t)
    &&& count_requirement(rest, MonsterRequirements::Hero) < counts.total() - typed_requirements(rest)
}

/// Every requirement is either for any hero or for one of the classes.
pub proof fn lemma_requirements_partition(requirements: Seq<MonsterRequirements>)
    ensures
        requirements.len() == count_requirement(requirements, MonsterRequirements::Hero) + typed_requirements(requirements),
    decreases requirements.len(),
{
    if requirements.len() > 0 {
        lemma_requirements_partition(requirements.drop_last());
    }
}

/// Removing a requirement lowers its count by one and leaves the others.
pub proof fn lemma_count_requirement_remove(requirements: Seq<MonsterRequirements>, i: int, requirement: MonsterRequirements)
    requires
        0 <= i < requirements.len(),
    ensures
        count_requirement(requirements.remove(i), requirement) == count_requirement(requirements, requirement)
            - if requirements[i] == requirement { 1int } else { 0int },
    decreases requirements.len(),
{
    if i == requirements.len() - 1 {
        assert(requirements.remove(i) =~= requirements.drop_last());
    } else {
        lemma_count_requirement_remove(requirements.drop_last(), i, requirement);
        assert(requirements.remove(i).drop_last() =~= requirements.drop_last().remove(i));
        assert(requirements.remove(i).last() == requirements.last());
    }
}

proof fn lemma_count_requirement_positive(requirements: Seq<MonsterRequirements>, i: int)
    requires
        0 <= i < requirements.len(),
    ensures
        count_requirement(requirements, requirements[i]) >= 1,
    decreases requirements.len(),
{
    if i < requirements.len() - 1 {
        lemma_count_requirement_positive(requirements.drop_last(), i);
    }
}

proof fn lemma_no_typed_left(requirements: Seq<MonsterRequirements>, t: HeroType)
    requires
        forall|k: int| 0 <= k < requirements.len() ==> #[trigger] requirements[k] == MonsterRequirements::Hero,
    ensures
        count_requirement(requirements, MonsterRequirements::HeroType(t)) == 0,
    decreases requirements.len(),
{
    if requirements.len() > 0 {
        lemma_no_typed_left(requirements.drop_last(), t);
        assert(requirements.last() == requirements[requirements.len() - 1]);
    }
}

proof fn lemma_leader_position_found(requirements: Seq<MonsterRequirements>, leader: HeroType, i: int)
    requires
        0 <= i < requirements.len(),
        forall|k: int| 0 <= k < i ==> !(#[trigger] requirements[k]).spec_satisfied_by_party_leader(leader),
        requirements[i].spec_satisfied_by_party_leader(leader),
    ensures
        leader_position(requirements, leader) == Some(i),
    decreases requirements.len(),
{
    if i + 1 < requirements.len() {
        lemma_leader_position_found(requirements.drop_last(), leader, i);
    } else {
        lemma_leader_position_none(requirements.drop_last(), leader);
    }
}

proof fn lemma_leader_position_none(requirements: Seq<MonsterRequirements>, leader: HeroType)
    requires
        forall|k: int| 0 <= k < requirements.len() ==> !(#[trigger] requirements[k]).spec_satisfied_by_party_leader(leader),
    ensures
        leader_position(requirements, leader) is None,
    decreases requirements.len(),
{
    if requirements.len() > 0 {
        lemma_leader_position_none(requirements.drop_last(), leader);
        assert(requirements.last() == requirements[requirements.len() - 1]);
    }
}

/// Whether `small` is `big` with some entries taken out, the others kept in their order.
pub open spec fn kept_in_order(small: Seq<MonsterRequirements>, big: Seq<MonsterRequirements>) -> bool {
    exists|idx: Seq<int>| {
        &&& #[trigger] idx.len() == small.len()
        &&& forall|k: int| 0 <= k < idx.len() ==> 0 <= #[trigger] idx[k] < big.len() && big[idx[k]] == small[k]
        &&& forall|k: int, l: int| 0 <= k < l < idx.len() ==> #[trigger] idx[k] < #[trigger] idx[l]
    }
}

proof fn lemma_kept_refl(s: Seq<MonsterRequirements>)
    ensures
        kept_in_order(s, s),
{
    let idx = Seq::new(s.len(), |k: int| k);
    assert(idx.len() == s.len());
}

proof fn lemma_kept_remove(s: Seq<MonsterRequirements>, i: int)
    requires
        0 <= i < s.len(),
    ensures
        kept_in_order(s.remove(i), s),
{
    let idx = Seq::new((s.len() - 1) as nat, |k: int| if k < i { k } else { k + 1 });
    assert(idx.len() == s.remove(i).len());
}

proof fn lemma_kept_trans(a: Seq<MonsterRequirements>, b: Seq<MonsterRequirements>, c: Seq<MonsterRequirements>)
    requires
        kept_in_order(a, b),
        kept_in_order(b, c),
    ensures
        kept_in_order(a, c),
{
    let i1 = choose|idx: Seq<int>| {
        &&& #[trigger] idx.len() == a.len()
        &&& forall|k: int| 0 <= k < idx.len() ==> 0 <= #[trigger] idx[k] < b.len() && b[idx[k]] == a[k]
        &&& forall|k: int, l: int| 0 <= k < l < idx.len() ==> #[trigger] idx[k] < #[trigger] idx[l]
    };
    let i2 = choose|idx: Seq<int>| {
        &&& #[trigger] idx.len() == b.len()
        &&& forall|k: int| 0 <= k < idx.len() ==> 0 <= #[trigger] idx[k] < c.len() && c[idx[k]] == b[k]
        &&& forall|k: int, l: int| 0 <= k < l < idx.len() ==> #[trigger] idx[k] < #[trigger] idx[l]
    };
    let idx = Seq::new(a.len(), |k: int| i2[i1[k]]);
    assert forall|k: int| 0 <= k < idx.len() implies 0 <= #[trigger] idx[k] < c.len() && c[idx[k]] == a[k] by {
        assert(0 <= i1[k] < b.len());
    }
    assert forall|k: int, l: int| 0 <= k < l < idx.len() implies #[trigger] idx[k] < #[trigger] idx[l] by {
        assert(i1[k] < i1[l]);
        assert(0 <= i1[k] < b.len() && 0 <= i1[l] < b.len());
    }
    assert(idx.len() == a.len());
}

/// Whether the party meets a monster's requirements (see `requirements_met`).
///
/// The leader's class is used up first where it meets a requirement; then each requirement
/// for a class uses up a hero of that class, and the check fails as soon as one cannot.
/// What is used up leaves the counter and the requirements.
pub fn player_satisfies_requirements(hero_type_counts: &mut HeroTypeCounter, requirements: &mut Vec<MonsterRequirements>) -> (r: bool)
    requires
        old(hero_type_counts).well_formed(),
        old(hero_type_counts).leader_type is Some,
    ensures
        r == requirements_met(*old(hero_type_counts), old(hero_type_counts).leader_type.unwrap(), old(requirements)@),
        kept_in_order(final(requirements)@, old(requirements)@),
        r ==> forall|k: int| 0 <= k < final(requirements)@.len() ==> #[trigger] final(requirements)@[k] == MonsterRequirements::Hero,
        r ==> final(requirements)@.len() < final(hero_type_counts).total(),
        final(hero_type_counts).well_formed(),
        (forall|t: HeroType| #[trigger] count_requirement(after_leader(old(requirements)@, old(hero_type_counts).leader_type.unwrap()), MonsterRequirements::HeroType(t)) <= old(hero_type_counts).count(t)) ==> {
            let rest = after_leader(old(requirements)@, old(hero_type_counts).leader_type.unwrap());
            &&& forall|k: int| 0 <= k < final(requirements)@.len() ==> #[trigger] final(requirements)@[k] == MonsterRequirements::Hero
            &&& final(requirements)@.len() == count_requirement(rest, MonsterRequirements::Hero)
            &&& forall|t: HeroType| #[trigger] final(hero_type_counts).count(t) == old(hero_type_counts).count(t) - count_requirement(rest, MonsterRequirements::HeroType(t))
        },
        final(hero_type_counts).leader_type is None <==> leader_position(old(requirements)@, old(hero_type_counts).leader_type.unwrap()) is Some,
{
    let leader = hero_type_counts.leader_type.unwrap();
    let ghost initial = requirements@;
    let mut i: usize = 0;
    while i < requirements.len() && !requirements[i].satisfied_by_party_leader(leader)
        invariant
            i <= requirements@.len(),
            requirements@ == initial,
            forall|k: int| 0 <= k < i ==> !(#[trigger] requirements@[k]).spec_satisfied_by_party_leader(leader),
        decreases requirements@.len() - i,
    {
        i = i + 1;
    }
    if i < requirements.len() {
        proof {
            lemma_leader_position_found(initial, leader, i as int);
            lemma_kept_remove(initial, i as int);
        }
        requirements.remove(i);
        hero_type_counts.leader_type = None;
    } else {
        proof {
            lemma_leader_position_none(initial, leader);
            lemma_kept_refl(initial);
        }
    }
    let ghost rest = requirements@;
    let ghost start = *hero_type_counts;
    assert(rest == after_leader(initial, leader));
    let mut done = false;
    while !done
        invariant
            hero_type_counts.well_formed(),
            start.well_formed(),
            hero_type_counts.leader_type == start.leader_type,
            start.counts@ == old(hero_type_counts).counts@,
            initial == old(requirements)@,
            old(hero_type_counts).leader_type == Some(leader),
            start.leader_type is None <==> leader_position(initial, leader) is Some,
            rest == after_leader(initial, leader),
            count_requirement(requirements@, MonsterRequirements::Hero) == count_requirement(rest, MonsterRequirements::Hero),
            forall|t: HeroType| #[trigger] hero_type_counts.count(t) <= start.count(t),
            forall|t: HeroType| count_requirement(requirements@, MonsterRequirements::HeroType(t)) + (start.count(t) - hero_type_counts.count(t))
                == #[trigger] count_requirement(rest, MonsterRequirements::HeroType(t)),
            done ==> forall|k: int| 0 <= k < requirements@.len() ==> #[trigger] requirements@[k] == MonsterRequirements::Hero,
            kept_in_order(requirements@, initial),
        decreases requirements@.len() + if done { 0int } else { 1int },
    {
        let mut j: usize = 0;
        while j < requirements.len() && requirements[j] == MonsterRequirements::Hero
            invariant
                j <= requirements@.len(),
                forall|k: int| 0 <= k < j ==> #[trigger] requirements@[k] == MonsterRequirements::Hero,
            decreases requirements@.len() - j,
        {
            j = j + 1;
        }
        if j == requirements.len() {
            done = true;
        } else {
            let hero_type = match requirements[j] {
                MonsterRequirements::HeroType(hero_type) => hero_type,
                MonsterRequirements::Hero => vstd::pervasive::unreached(),
            };
            if hero_type_counts.try_to_take_one_away(hero_type) {
                proof {
                    let before = requirements@;
                    assert forall|x: MonsterRequirements| #[trigger] count_requirement(before.remove(j as int), x)
                        == count_requirement(before, x) - if before[j as int] == x { 1int } else { 0int } by {
                        lemma_count_requirement_remove(before, j as int, x);
                    }
                }
                proof {
                    lemma_kept_remove(requirements@, j as int);
                    lemma_kept_trans(requirements@.remove(j as int), requirements@, initial);
                }
                requirements.remove(j);
            } else {
                proof {
                    lemma_count_requirement_positive(requirements@, j as int);
                    assert(count_requirement(rest, MonsterRequirements::HeroType(hero_type)) > start.count(hero_type));
                    assert(count_requirement(rest, MonsterRequirements::HeroType(hero_type)) > old(hero_type_counts).count(hero_type));
                }
                return false;
            }
        }
    }
    proof {
        assert forall|t: HeroType| #[trigger] count_requirement(requirements@, MonsterRequirements::HeroType(t)) == 0 by {
            lemma_no_typed_left(requirements@, t);
        }
        lemma_requirements_partition(requirements@);
        assert(count_requirement(rest, MonsterRequirements::HeroType(HeroType::Bard)) == start.count(HeroType::Bard) - hero_type_counts.count(HeroType::Bard));
        assert(count_requirement(rest, MonsterRequirements::HeroType(HeroType::Wizard)) == start.count(HeroType::Wizard) - hero_type_counts.count(HeroType::Wizard));
        assert(count_requirement(rest, MonsterRequirements::HeroType(HeroType::Fighter)) == start.count(HeroType::Fighter) - hero_type_counts.count(HeroType::Fighter));
        assert(count_requirement(rest, MonsterRequirements::HeroType(HeroType::Gaurdian)) == start.count(HeroType::Gaurdian) - hero_type_counts.count(HeroType::Gaurdian));
        assert(count_requirement(rest, MonsterRequirements::HeroType(HeroType::Ranger)) == start.count(HeroType::Ranger) - hero_type_counts.count(HeroType::Ranger));
        assert(count_requirement(rest, MonsterRequirements::HeroType(HeroType::Thief)) == start.count(HeroType::Thief) - hero_type_counts.count(HeroType::Thief));
    }
    (requirements.len() as u64) < hero_type_counts.sum()
}

} // verus!
