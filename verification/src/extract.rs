//! The two-state iteration protocol shared by encoder and decoder
//! extraction: a fresh push or flush starts a sequence in `Draining`; the
//! engine's "no more output" signal moves it to `Exhausted`, where it
//! stays. The sequence is finite, consumed once, and not restartable.

use vstd::prelude::*;

verus! {

/// State of one extraction sequence.
#[derive(Clone, Copy, Debug, PartialEq, Eq, Structural)]
pub enum IterState {
    /// The engine may still hold buffered output for this push.
    Draining,
    /// The engine has signalled the end of this push's output.
    Exhausted,
}

} // verus!
