use vstd::prelude::*;

verus! {

/// Who looks at a deck: its owner, or anyone else.
#[derive(Debug, Clone, Copy, PartialEq, Eq, Structural)]
pub enum Perspective {
    Owner,
    Spectator,
}

/// How much of a deck a viewer sees.
#[derive(Debug, Clone, Copy, PartialEq, Eq, Structural)]
pub enum Visibility {
    /// Every card.
    Visible,
    /// Only how many cards there are.
    Summary,
    /// Nothing.
    Invisible,
}

/// How much of a deck its owner and the other players see.
#[derive(Debug, Clone, Copy, PartialEq, Eq, Structural)]
pub struct VisibilitySpec {
    pub owner: Visibility,
    pub spectator: Visibility,
}

impl VisibilitySpec {
    pub open spec fn spec_get(self, perspective: Perspective) -> Visibility {
        match perspective {
            Perspective::Owner => self.owner,
            Perspective::Spectator => self.spectator,
        }
    }

    pub open spec fn spec_summary() -> VisibilitySpec {
        VisibilitySpec { owner: Visibility::Visible, spectator: Visibility::Summary }
    }

    pub open spec fn spec_visible() -> VisibilitySpec {
        VisibilitySpec { owner: Visibility::Visible, spectator: Visibility::Visible }
    }

    pub open spec fn spec_invisible() -> VisibilitySpec {
        VisibilitySpec { owner: Visibility::Invisible, spectator: Visibility::Invisible }
    }

    /// The owner sees every card; everyone else sees how many there are.
    pub fn summary() -> (r: VisibilitySpec)
        ensures
            r == Self::spec_summary(),
    {
        VisibilitySpec { owner: Visibility::Visible, spectator: Visibility::Summary }
    }

    /// Everyone sees every card.
    pub fn visible() -> (r: VisibilitySpec)
        ensures
            r == Self::spec_visible(),
    {
        VisibilitySpec { owner: Visibility::Visible, spectator: Visibility::Visible }
    }

    /// No one sees anything.
    pub fn invisible() -> (r: VisibilitySpec)
        ensures
            r == Self::spec_invisible(),
    {
        VisibilitySpec { owner: Visibility::Invisible, spectator: Visibility::Invisible }
    }

    pub fn get(&self, perspective: &Perspective) -> (r: Visibility)
        ensures
            r == self.spec_get(*perspective),
    {
        match perspective {
            Perspective::Owner => self.owner,
            Perspective::Spectator => self.spectator,
        }
    }

    pub fn is_visible(&self, perspective: &Perspective) -> (r: bool)
        ensures
            r == (self.spec_get(*perspective) != Visibility::Invisible),
    {
        match self.get(perspective) {
            Visibility::Invisible => false,
            _ => true,
        }
    }
}

} // verus!
