//! The camera that the game opens with.

use vstd::prelude::*;

verus! {

/// Names the plugin that sets up the opening camera. The camera itself is
/// the engine's; this type only stands for the plugin where the library and
/// the engine side speak of it.
#[derive(Clone, Copy, Debug, PartialEq, Eq, Hash, Default)]
pub struct CustomCameraPlugin;

} // verus!
