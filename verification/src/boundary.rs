//! The boundary's configuration, and the table by which it chooses a
//! recovery.
use vstd::prelude::*;
use crate::handle::Local;

verus! {

/// The boundary between native code and the runtime that protects a unit of
/// work from unhandled failure. It holds the message that reports each kind
/// of failure. Attempts to handle a failure are made in order of ascending
/// severity:
///
/// 1. reject the promise, if the work has one;
/// 2. emit an uncaught exception, where the runtime can;
/// 3. abort the process with a message.
#[derive(Clone, Copy, Debug)]
pub struct FailureBoundary {
    pub both: &'static str,
    pub exception: &'static str,
    pub panic: &'static str,
}

/// The mathematical value of a [`FailureBoundary`].
pub struct FailureBoundaryView {
    pub both: Seq<char>,
    pub exception: Seq<char>,
    pub panic: Seq<char>,
}

/// The ways in which a unit of work fails.
#[derive(Clone, Copy, Debug, PartialEq, Eq, Structural)]
pub enum Failure {
    /// The work panicked while an exception was pending.
    Both,
    /// The work left an exception pending.
    Exception,
    /// The work panicked.
    Panic,
}

impl FailureBoundaryView {
    /// The message that reports a failure of the given kind.
    pub open spec fn message(self, failure: Failure) -> Seq<char> {
        match failure {
            Failure::Both => self.both,
            Failure::Exception => self.exception,
            Failure::Panic => self.panic,
        }
    }
}

impl View for FailureBoundary {
    type V = FailureBoundaryView;

    open spec fn view(&self) -> FailureBoundaryView {
        FailureBoundaryView { both: self.both@, exception: self.exception@, panic: self.panic@ }
    }
}

impl FailureBoundary {
    /// The message that reports a failure of the given kind.
    pub fn message(&self, failure: Failure) -> (text: &'static str)
        ensures
            text@ == self@.message(failure),
    {
        match failure {
            Failure::Both => self.both,
            Failure::Exception => self.exception,
            Failure::Panic => self.panic,
        }
    }
}

/// What is done about the outcome of a unit of work.
#[derive(Clone, Copy, Debug, PartialEq, Eq, Structural)]
pub enum Recovery {
    /// The work succeeded and no promise waits for it: nothing is done.
    Complete,
    /// The work succeeded: the promise is resolved with the value.
    Resolve(Local),
    /// The work left an exception and nothing else: the promise is rejected
    /// with the exception itself.
    Forward(Local),
    /// The promise is rejected with an error made for the failure.
    Reject(Failure),
    /// No promise waits: an error made for the failure is emitted as an
    /// uncaught exception.
    Emit(Failure),
    /// No promise waits and nothing can be emitted: the process is aborted.
    Abort(Failure),
}

/// How a unit of work failed, if it did: `exception` is the exception that it
/// left pending, and `returned` the value that it returned, absent when it
/// panicked.
pub open spec fn failure_of(exception: Option<Local>, returned: Option<Local>) -> Option<Failure> {
    match (exception, returned) {
        (None, Some(_)) => None,
        (Some(_), Some(_)) => Some(Failure::Exception),
        (None, None) => Some(Failure::Panic),
        (Some(_), None) => Some(Failure::Both),
    }
}

/// The recovery for each outcome. A success resolves the promise. A failure
/// takes the least severe remedy that is at hand: the promise if there is
/// one, else an uncaught exception if the runtime can emit one, else the end
/// of the process. An exception that came alone is handed to the promise as
/// it is.
pub open spec fn recovery(
    has_deferred: bool,
    exception: Option<Local>,
    returned: Option<Local>,
    can_emit: bool,
) -> Recovery {
    match failure_of(exception, returned) {
        None => if has_deferred {
            Recovery::Resolve(returned.unwrap())
        } else {
            Recovery::Complete
        },
        Some(failure) => if has_deferred {
            if failure == Failure::Exception {
                Recovery::Forward(exception.unwrap())
            } else {
                Recovery::Reject(failure)
            }
        } else if can_emit {
            Recovery::Emit(failure)
        } else {
            Recovery::Abort(failure)
        },
    }
}

impl Recovery {
    /// Chooses the recovery for an outcome.
    pub fn decide(
        has_deferred: bool,
        exception: Option<Local>,
        returned: Option<Local>,
        can_emit: bool,
    ) -> (chosen: Recovery)
        ensures
            chosen == recovery(has_deferred, exception, returned, can_emit),
    {
        let failure = match (exception, returned) {
            (None, Some(value)) => {
                return if has_deferred {
                    Recovery::Resolve(value)
                } else {
                    Recovery::Complete
                };
            },
            (Some(thrown), Some(_)) => {
                if has_deferred {
                    return Recovery::Forward(thrown);
                }
                Failure::Exception
            },
            (None, None) => Failure::Panic,
            (Some(_), None) => Failure::Both,
        };
        if has_deferred {
            Recovery::Reject(failure)
        } else if can_emit {
            Recovery::Emit(failure)
        } else {
            Recovery::Abort(failure)
        }
    }
}

} // verus!
