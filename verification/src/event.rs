//! The events that reach the coordinator from outside the window system.

use vstd::prelude::*;

verus! {

/// What the reader of the pseudo-terminal tells the coordinator.
#[derive(Debug)]
pub enum RoseEvent {
    /// A batch of the shell's output, in the order it was read.
    PtyOutput(Vec<u8>),
    /// The stream has ended.
    Exit,
}

} // verus!
