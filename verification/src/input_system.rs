//! The build-mode key.

use vstd::prelude::*;
use crate::state::PlayerState;

verus! {

/// The mode on the other side of the build key.
pub open spec fn toggled(current: PlayerState) -> PlayerState {
    match current {
        PlayerState::Build => PlayerState::Idle,
        PlayerState::Idle => PlayerState::Build,
    }
}

/// What the build key asks for this frame: nothing unless it was just
/// pressed, else the mode the player is not in.
pub fn read_build_input(build_key_just_pressed: bool, current: PlayerState) -> (next: Option<
    PlayerState,
>)
    ensures
        next == if build_key_just_pressed {
            Some(toggled(current))
        } else {
            None
        },
{
    if build_key_just_pressed {
        if current != PlayerState::Build {
            Some(PlayerState::Build)
        } else {
            Some(PlayerState::Idle)
        }
    } else {
        None
    }
}

/// Pressing the build key twice brings the player back to where they were.
pub proof fn toggled_twice(current: PlayerState)
    ensures
        toggled(toggled(current)) == current,
{
}

} // verus!
