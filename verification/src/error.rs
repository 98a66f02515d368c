//! The errors a call can fail with. A failed call never changes committed
//! state: every contract that can return one of these also says that the
//! pre-call root and store are left exactly as they were.

use vstd::prelude::*;

verus! {

/// Why a call was refused.
#[derive(Clone, Copy, Debug, PartialEq, Eq, Structural)]
pub enum ActorError {
    /// A privileged-only call came from an unprivileged caller, or the
    /// constructor ran a second time.
    Authorization,
    /// The underlying store failed to read or write a node.
    Storage,
    /// A mutation arrived before the constructor had run.
    NotInitialized,
}

} // verus!
