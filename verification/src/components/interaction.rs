//! Picking a node's look from what the pointer is doing to it.

use vstd::prelude::*;
use crate::layout::Interaction;

verus! {

/// One value for each interaction state of a node.
pub struct InteractionStates<T> {
    /// The node has been clicked.
    pub clicked: T,
    /// The node has been hovered over.
    pub hovered: T,
    /// Nothing has happened.
    pub none: T,
}

impl<T> InteractionStates<T> {
    /// The value that belongs to `interaction`.
    pub open spec fn pick(self, interaction: Interaction) -> T {
        match interaction {
            Interaction::Clicked => self.clicked,
            Interaction::Hovered => self.hovered,
            Interaction::Idle => self.none,
        }
    }

    /// The value that belongs to `interaction`.
    pub fn select(&self, interaction: Interaction) -> (picked: &T)
        ensures
            *picked == self.pick(interaction),
    {
        match interaction {
            Interaction::Clicked => &self.clicked,
            Interaction::Hovered => &self.hovered,
            Interaction::Idle => &self.none,
        }
    }
}

} // verus!
