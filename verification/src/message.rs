//! The text that a worker thread sends back for a message that it was
//! given.
use vstd::prelude::*;
use vstd::string::StringExecFns;

verus! {

/// What stands before the message in the acknowledgement of it.
pub const RECEIVED: &'static str = "Received: ";

/// The acknowledgement of a message: the word `Received`, a colon and a
/// space, then the message as it came.
pub fn received(message: &str) -> (response: String)
    ensures
        response@ == RECEIVED@ + message@,
{
    RECEIVED.to_owned().concat(message)
}

} // verus!
