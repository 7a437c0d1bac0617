use vstd::prelude::*;

use crate::ids;
use crate::specs::modifier::ModifierKinds;
use crate::status_effects::effect_entry::EffectOrigin;

verus! {

/// Which roll a modification applies to.
#[derive(Debug, Clone, Copy, PartialEq, Eq, Hash, Structural)]
pub enum ModificationPath {
    /// The roll of a roll showdown.
    Roll,
    /// The challenger's roll in a challenge.
    Challenger,
    /// The initiator's roll in a challenge.
    Initiator,
}

/// Who or what modified a roll.
#[derive(Debug, Clone, Copy, PartialEq, Eq, Structural)]
pub enum ModificationOrigin {
    FromPlayer(ids::PlayerIndex, ModifierKinds),
    FromBuff(EffectOrigin),
}

/// An amount added to a roll.
#[derive(Debug, Clone, Copy, PartialEq, Eq, Structural)]
pub struct RollModification {
    pub origin: ModificationOrigin,
    pub amount: i32,
}

/// The sum of the amounts of a list of modifications.
pub open spec fn total_amount(modifications: Seq<RollModification>) -> int
    decreases modifications.len(),
{
    if modifications.len() == 0 {
        0
    } else {
        total_amount(modifications.drop_last()) + modifications.last().amount
    }
}

/// Whether adding the amounts one after the other, from the first, stays within `i32`.
pub open spec fn amounts_fit(modifications: Seq<RollModification>) -> bool {
    forall|k: int|
        0 <= k <= modifications.len() ==> i32::MIN <= #[trigger] total_amount(modifications.take(k)) <= i32::MAX
}

/// Sums the amounts of the modifications.
pub fn sum_amounts(modifications: &[RollModification]) -> (r: i32)
    requires
        amounts_fit(modifications@),
    ensures
        r == total_amount(modifications@),
{
    let mut sum: i32 = 0;
    let mut i: usize = 0;
    assert(modifications@.take(0) =~= Seq::<RollModification>::empty());
    while i < modifications.len()
        invariant
            i <= modifications@.len(),
            amounts_fit(modifications@),
            sum == total_amount(modifications@.take(i as int)),
        decreases modifications@.len() - i,
    {
        assert(modifications@.take(i + 1).drop_last() =~= modifications@.take(i as int));
        assert(i32::MIN <= total_amount(modifications@.take(i + 1)) <= i32::MAX);
        sum = sum + modifications[i].amount;
        i = i + 1;
    }
    assert(modifications@.take(i as int) =~= modifications@);
    sum
}

/// How a choice to modify a roll is shown to players.
#[derive(Debug, Clone, Copy, PartialEq, Eq, Structural)]
pub enum RollModificationChoiceType {
    AddToRoll(ModifierKinds, i32, ModificationPath),
    RemoveFromRoll(ModifierKinds, i32, ModificationPath),
}

impl RollModificationChoiceType {
    pub open spec fn spec_path(self) -> ModificationPath {
        match self {
            RollModificationChoiceType::AddToRoll(_, _, path) => path,
            RollModificationChoiceType::RemoveFromRoll(_, _, path) => path,
        }
    }

    pub fn get_path(&self) -> (r: ModificationPath)
        ensures
            r == self.spec_path(),
    {
        match self {
            RollModificationChoiceType::AddToRoll(_, _, path) => *path,
            RollModificationChoiceType::RemoveFromRoll(_, _, path) => *path,
        }
    }

    pub open spec fn spec_from_card(spec: ModifierKinds, amount: i32, path: ModificationPath) -> Self {
        if amount < 0 {
            RollModificationChoiceType::RemoveFromRoll(spec, amount, path)
        } else {
            RollModificationChoiceType::AddToRoll(spec, amount, path)
        }
    }

    /// A negative amount removes from the roll; any other amount adds to it.
    pub fn from_card(spec: &ModifierKinds, amount: i32, path: ModificationPath) -> (r: Self)
        ensures
            r == Self::spec_from_card(*spec, amount, path),
    {
        if amount < 0 {
            RollModificationChoiceType::RemoveFromRoll(*spec, amount, path)
        } else {
            RollModificationChoiceType::AddToRoll(*spec, amount, path)
        }
    }
}

#[derive(Debug, Clone, Copy, PartialEq, Eq, Structural)]
pub struct RollModificationChoice {
    pub choice_id: ids::ChoiceId,
    pub choice_type: RollModificationChoiceType,
}

} // verus!
