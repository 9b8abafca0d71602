//! The main menu: its two buttons, the keys that pause and leave a game, and
//! how a button answers the pointer.

use vstd::prelude::*;
use crate::state::AppState;

verus! {

/// How the pointer stands to a button.
#[derive(Clone, Copy, Debug, PartialEq, Eq, Hash, Structural)]
pub enum Interaction {
    Pressed,
    Hovered,
    Idle,
}

/// What a menu button does.
#[derive(Clone, Copy, Debug, PartialEq, Eq, Hash, Structural)]
pub enum MenuButtonAction {
    Play,
    Quit,
}

/// What the menu asks of the application after one frame.
#[derive(Clone, Copy, Debug, PartialEq, Eq, Hash, Structural)]
pub enum MenuOutcome {
    /// No button was pressed.
    Stay,
    /// Move to the given state.
    Enter(AppState),
    /// Leave the program.
    Quit,
}

/// Whether some button in `buttons` is pressed and carries `action`.
pub open spec fn pressed(buttons: Seq<(Interaction, MenuButtonAction)>, action: MenuButtonAction)
    -> bool {
    exists|i: int|
        0 <= i < buttons.len() && (#[trigger] buttons[i]).0 == Interaction::Pressed && buttons[i].1
            == action
}

/// What a frame's button changes amount to: quitting wins over playing,
/// wherever the two stand in the list.
pub open spec fn menu_outcome(buttons: Seq<(Interaction, MenuButtonAction)>) -> MenuOutcome {
    if pressed(buttons, MenuButtonAction::Quit) {
        MenuOutcome::Quit
    } else if pressed(buttons, MenuButtonAction::Play) {
        MenuOutcome::Enter(AppState::InGame)
    } else {
        MenuOutcome::Stay
    }
}

/// Reads the buttons whose interaction changed this frame, in order, and
/// says what the menu does.
pub fn menu_action(buttons: &Vec<(Interaction, MenuButtonAction)>) -> (outcome: MenuOutcome)
    ensures
        outcome == menu_outcome(buttons@),
{
    let mut outcome = MenuOutcome::Stay;
    let mut i: usize = 0;
    while i < buttons.len()
        invariant
            i <= buttons.len(),
            outcome == menu_outcome(buttons@.take(i as int)),
            outcome != MenuOutcome::Quit,
        decreases buttons.len() - i,
    {
        let (interaction, action) = buttons[i];
        proof {
            let before = buttons@.take(i as int);
            let after = buttons@.take(i + 1);
            assert(after[i as int] == buttons@[i as int]);
            assert(forall|j: int| 0 <= j < i ==> before[j] == after[j]);
            assert(forall|a: MenuButtonAction|
                pressed(after, a) <==> pressed(before, a) || (interaction == Interaction::Pressed
                    && action == a)) by {
                assert forall|a: MenuButtonAction| pressed(before, a) implies pressed(after, a) by {
                    let j = choose|j: int|
                        0 <= j < before.len() && (#[trigger] before[j]).0 == Interaction::Pressed
                            && before[j].1 == a;
                    assert(after[j].0 == Interaction::Pressed && after[j].1 == a);
                }
                assert forall|a: MenuButtonAction| pressed(after, a) implies pressed(before, a) || (
                interaction == Interaction::Pressed && action == a) by {
                    let j = choose|j: int|
                        0 <= j < after.len() && (#[trigger] after[j]).0 == Interaction::Pressed
                            && after[j].1 == a;
                    if j < i {
                        assert(before[j].0 == Interaction::Pressed && before[j].1 == a);
                    }
                }
            }
        }
        if interaction == Interaction::Pressed {
            match action {
                MenuButtonAction::Quit => {
                    proof {
                        let k = i as int;
                        assert(buttons@[k].0 == Interaction::Pressed && buttons@[k].1
                            == MenuButtonAction::Quit);
                    }
                    return MenuOutcome::Quit;
                },
                MenuButtonAction::Play => {
                    outcome = MenuOutcome::Enter(AppState::InGame);
                },
            }
        }
        i += 1;
    }
    assert(buttons@.take(i as int) =~= buttons@);
    outcome
}

/// What the keyboard asks for this frame. Escape opens the menu; Space
/// pauses a running game and resumes a paused one. Where both were pressed
/// in one frame, Space has the last word.
pub open spec fn key_request(escape: bool, space: bool, current: AppState) -> Option<AppState> {
    if space {
        if current != AppState::Paused {
            Some(AppState::Paused)
        } else {
            Some(AppState::InGame)
        }
    } else if escape {
        Some(AppState::Menu)
    } else {
        None
    }
}

/// The state that the keys just pressed ask for, if any.
pub fn keyboard_input(escape_just_pressed: bool, space_just_pressed: bool, current: AppState) -> (next:
    Option<AppState>)
    ensures
        next == key_request(escape_just_pressed, space_just_pressed, current),
{
    let mut next: Option<AppState> = None;
    if escape_just_pressed {
        next = Some(AppState::Menu);
    }
    if space_just_pressed {
        if current != AppState::Paused {
            next = Some(AppState::Paused);
        } else {
            next = Some(AppState::InGame);
        }
    }
    next
}

/// The sound a button makes.
#[derive(Clone, Copy, Debug, PartialEq, Eq, Hash, Structural)]
pub enum ButtonSound {
    Hover,
    Click,
}

/// The colour of a button's border.
#[derive(Clone, Copy, Debug, PartialEq, Eq, Hash, Structural)]
pub enum ButtonTint {
    /// No border colour at all.
    Clear,
    Hover,
    Press,
}

/// How a button looks and sounds after its interaction changed.
#[derive(Clone, Copy, Debug, PartialEq, Eq, Structural)]
pub struct ButtonFeedback {
    /// Border width on every side, in pixels.
    pub border: u32,
    pub tint: ButtonTint,
    pub sound: Option<ButtonSound>,
}

/// Border width of a button under the pointer, in pixels.
pub const ACTIVE_BORDER: u32 = 3;

/// The look and sound that belong to each interaction.
pub open spec fn feedback_for(interaction: Interaction) -> ButtonFeedback {
    match interaction {
        Interaction::Hovered => ButtonFeedback {
            border: ACTIVE_BORDER,
            tint: ButtonTint::Hover,
            sound: Some(ButtonSound::Hover),
        },
        Interaction::Pressed => ButtonFeedback {
            border: ACTIVE_BORDER,
            tint: ButtonTint::Press,
            sound: Some(ButtonSound::Click),
        },
        Interaction::Idle => ButtonFeedback { border: 0, tint: ButtonTint::Clear, sound: None },
    }
}

/// A button under the pointer gets a border and a sound; one the pointer
/// left loses its border and stays silent.
pub fn button_visuals_and_sounds(interaction: Interaction) -> (feedback: ButtonFeedback)
    ensures
        feedback == feedback_for(interaction),
{
    match interaction {
        Interaction::Hovered => ButtonFeedback {
            border: ACTIVE_BORDER,
            tint: ButtonTint::Hover,
            sound: Some(ButtonSound::Hover),
        },
        Interaction::Pressed => ButtonFeedback {
            border: ACTIVE_BORDER,
            tint: ButtonTint::Press,
            sound: Some(ButtonSound::Click),
        },
        Interaction::Idle => ButtonFeedback { border: 0, tint: ButtonTint::Clear, sound: None },
    }
}

} // verus!
