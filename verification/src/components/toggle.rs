//! The on/off state of a node that flips when it is clicked.

use vstd::prelude::*;
use crate::layout::Interaction;

verus! {

/// The toggle state of a UI node.
#[derive(Clone, Copy, Debug, PartialEq, Eq, Structural)]
pub enum Toggle {
    Off,
    On,
}

impl Default for Toggle {
    fn default() -> (t: Toggle)
        ensures
            t == Toggle::Off,
    {
        Toggle::Off
    }
}

impl Toggle {
    /// The other state.
    pub open spec fn flipped(self) -> Toggle {
        match self {
            Toggle::On => Toggle::Off,
            Toggle::Off => Toggle::On,
        }
    }

    /// The state after the node's interaction changed to `interaction`.
    pub open spec fn after(self, interaction: Interaction) -> Toggle {
        if interaction == Interaction::Clicked {
            self.flipped()
        } else {
            self
        }
    }
}

/// Updates a toggle whose node's interaction has just changed: a click flips
/// it, anything else leaves it alone. Returns whether it was written.
pub fn toggle(interaction: Interaction, state: &mut Toggle) -> (written: bool)
    ensures
        *final(state) == old(state).after(interaction),
        written == (interaction == Interaction::Clicked),
{
    match interaction {
        Interaction::Clicked => {
            *state = match *state {
                Toggle::On => Toggle::Off,
                Toggle::Off => Toggle::On,
            };
            true
        },
        _ => false,
    }
}

/// Two clicks bring a toggle back to where it was, and a click always changes it.
pub proof fn lemma_toggle_twice(t: Toggle)
    ensures
        t.after(Interaction::Clicked).after(Interaction::Clicked) == t,
        t.after(Interaction::Clicked) != t,
{
}

} // verus!
