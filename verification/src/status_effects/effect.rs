use vstd::prelude::*;

use crate::specification::HeroType;

verus! {

/// A lasting effect on a player, granted by a slain monster, a party leader, a hero or a magic card.
#[derive(Debug, Clone, Copy, PartialEq, Eq, Structural)]
pub enum PlayerStatusEffect {
    // Orthus: Each time you DRAW a Magic card, you may play it immediately.
    PlayMagicOnDraw,
    // Malammoth: Each time you DRAW an Item card, you may play it immediately.
    PlayItemOnDraw,
    ItemsCannotBeChallenged,
    NoCardsCanBeChallenged,
    NoCardsCanBeStolen,
    NoCardsCanBeDestroyed,
    UndestroyableHeros,
    ExtraActionPoint,
    DrawOnSuccessfulAbility,
    DiscardOnChallenge,
    DrawOnDestroy,
    StealInsteadOfSacrifice,
    RevealModifiersAndDrawAgain,
    DrawOnPlayMagic,
    ModifierBonus,
    DrawOnModify,
    AddOnModify,
    AddToRollForAttack(i32),
    AddToAllRolls(i32),
    AddToRollForAnyAbility(i32),
    AddToRollForChallenge(i32),
}

/// An effect that an item card has on the hero card that it is equipped to.
#[derive(Debug, Clone, Copy, PartialEq, Eq, Structural)]
pub enum HeroStatusEffect {
    Mask(HeroType),
    AddToRollForAbility(i32),
    DrawOnUnsuccessfulRollForAbility(u32),
    DiscardOnSuccessfulRollForAbility(u32),
    RemoveAbility,
    SacrificeMeInstead,
}

} // verus!
