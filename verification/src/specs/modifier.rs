use vstd::prelude::*;

verus! {

/// The modifier cards: each adds to or removes from a roll.
#[derive(Debug, Clone, Copy, PartialEq, Eq, Structural)]
pub enum ModifierKinds {
    Plus4,
    Plus3Minus1,
    Plus2Minus2,
    Plus1Minus3,
    Minus4,
}

impl ModifierKinds {
    /// The amounts that the card offers, in the order printed on it.
    pub open spec fn spec_amounts(self) -> Seq<i32> {
        match self {
            ModifierKinds::Plus4 => seq![4i32],
            ModifierKinds::Plus3Minus1 => seq![3i32, -1i32],
            ModifierKinds::Plus2Minus2 => seq![2i32, -2i32],
            ModifierKinds::Plus1Minus3 => seq![1i32, -3i32],
            ModifierKinds::Minus4 => seq![-4i32],
        }
    }

    pub fn list_amounts(&self) -> (r: Vec<i32>)
        ensures
            r@ == self.spec_amounts(),
    {
        match self {
            ModifierKinds::Plus4 => vec![4],
            ModifierKinds::Plus3Minus1 => vec![3, -1],
            ModifierKinds::Plus2Minus2 => vec![2, -2],
            ModifierKinds::Plus1Minus3 => vec![1, -3],
            ModifierKinds::Minus4 => vec![-4],
        }
    }
}

} // verus!
