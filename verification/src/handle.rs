//! Plain stand-ins for the handles that the runtime gives out.
//!
//! The library only carries them from a reply to a later request; it never
//! looks inside one, except to tell a null environment from a live one.
use vstd::prelude::*;

verus! {

/// The runtime's execution context. A null handle (`raw == 0`) says that the
/// event loop has already terminated.
#[derive(Clone, Copy, Debug, PartialEq, Eq, Structural)]
pub struct Env {
    pub raw: usize,
}

/// A value that lives in the runtime's heap, valid for the current
/// activation of the runtime thread.
#[derive(Clone, Copy, Debug, PartialEq, Eq, Structural)]
pub struct Local {
    pub raw: usize,
}

/// The capability to settle one promise. It is neither `Clone` nor `Copy`:
/// whoever settles the promise gives the capability up.
#[derive(Debug, PartialEq, Eq, Structural)]
pub struct Deferred {
    pub raw: usize,
}

impl Env {
    /// Whether the event loop has terminated.
    pub fn is_null(&self) -> (null: bool)
        ensures
            null == (self.raw == 0),
    {
        self.raw == 0
    }

    /// The environment to hand to a unit of work: `None` once the event loop
    /// has terminated.
    pub fn live(self) -> (env: Option<Env>)
        ensures
            env == self.spec_live(),
    {
        if self.raw == 0 {
            None
        } else {
            Some(self)
        }
    }

    /// The environment as a unit of work sees it.
    pub open spec fn spec_live(self) -> Option<Env> {
        if self.raw == 0 {
            None
        } else {
            Some(self)
        }
    }
}

} // verus!
