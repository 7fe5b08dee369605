//! The thread context for running a client on a Tokio local task set.
use vstd::prelude::*;

verus! {

/// A context for running a JACK client on the current Tokio local task set.
#[derive(Debug, Default, Clone, Copy, PartialEq, Eq, Structural)]
pub struct TokioContext;

} // verus!
