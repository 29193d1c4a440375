//! The sounds the game can ask for.

use vstd::prelude::*;

verus! {

/// A sound effect.
#[derive(Debug, Clone, Copy, PartialEq, Eq, Structural)]
pub enum SfxEvent {
    Hit,
    Death,
    LevelUp,
}

} // verus!
