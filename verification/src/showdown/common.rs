//! The types shared by rolls and challenges, under one roof.
pub use super::roll::{ChallengeReason, Roll};
pub use super::roll_modification::{
    ModificationOrigin, ModificationPath, RollModification, RollModificationChoice,
    RollModificationChoiceType,
};
