//! Events that drive the input loop.

pub mod key;

use crate::inputs::key::Key;
use vstd::prelude::*;

verus! {

/// What the input loop wakes up for.
#[derive(Debug, Clone, Copy, PartialEq, Eq, Structural)]
pub enum InputEvent {
    /// A key was pressed.
    Input(Key),
    /// The redraw timer fired.
    Tick,
}

} // verus!
