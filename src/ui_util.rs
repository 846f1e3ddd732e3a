use vstd::prelude::*;

verus! {

/// How the pointer is interacting with a button.
#[derive(Clone, Copy, Debug, PartialEq, Eq, Structural)]
pub enum Interaction {
    Pressed,
    Hovered,
    Idle,
}

/// The colour a button shows.
#[derive(Clone, Copy, Debug, PartialEq, Eq, Structural)]
pub enum ButtonLook {
    Pressed,
    Hovered,
    /// Its own colour, or the default one.
    Rest,
}

/// A button's look for its current interaction, and whether it was just
/// clicked: released while still hovered.
pub fn update_button_color(interaction: Interaction, last: Option<Interaction>) -> (r: (ButtonLook, bool))
    ensures
        r.0 == match interaction {
            Interaction::Pressed => ButtonLook::Pressed,
            Interaction::Hovered => ButtonLook::Hovered,
            Interaction::Idle => ButtonLook::Rest,
        },
        r.1 == (interaction == Interaction::Hovered && last == Some(Interaction::Pressed)),
{
    match interaction {
        Interaction::Pressed => (ButtonLook::Pressed, false),
        Interaction::Hovered => (ButtonLook::Hovered, last == Some(Interaction::Pressed)),
        Interaction::Idle => (ButtonLook::Rest, false),
    }
}

} // verus!
