//! How a launch relates to the saved sessions.
use vstd::prelude::*;

verus! {

/// Whether a launch restores, starts or avoids a saved session.
#[derive(Debug, Clone, Copy, PartialEq, Eq, Structural)]
pub enum RestoreMode {
    /// Restore the session bound to this launch context, or start one.
    Auto,
    /// Start a new saved session for this launch context.
    New,
    /// Neither restore nor save a session.
    NoRestore,
}

} // verus!
