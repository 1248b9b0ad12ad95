//! The exchange between the boundary and whoever performs its requests on
//! the runtime.
use vstd::prelude::*;
use crate::handle::{Deferred, Local};

verus! {

/// The property that attaches the exception to the error made for a
/// failure, and the boxed payload to the error made for a panic.
pub const CAUSE: &'static str = "cause";

/// The property that attaches the error made for a panic to the error made
/// for a failure.
pub const PANIC: &'static str = "panic";

/// The diagnostic of a failure to ask whether an exception is pending.
pub const FAILED_PENDING: &'static str = "Failed to check if an exception is pending";

/// The diagnostic of a failure to take the pending exception.
pub const FAILED_EXCEPTION: &'static str = "Failed to get and clear the last exception";

/// The diagnostic of a failure to create a string.
pub const FAILED_STRING: &'static str = "Failed to create a String";

/// The diagnostic of a failure to create an error.
pub const FAILED_ERROR: &'static str = "Failed to create an Error";

/// The diagnostic of a failure to box the payload of a panic.
pub const FAILED_EXTERNAL: &'static str = "Failed to create a neon::types::JsBox from a panic";

/// The diagnostic of a failure to set a property.
pub const FAILED_PROPERTY: &'static str = "Failed to set an object property";

/// The diagnostic of a failure to resolve the promise.
pub const FAILED_RESOLVE: &'static str = "Failed to resolve promise";

/// The diagnostic of a failure to reject the promise.
pub const FAILED_REJECT: &'static str = "Failed to reject promise";

/// The diagnostic of a failure to emit an uncaught exception.
pub const FAILED_EMIT: &'static str = "Failed to throw an uncaughtException";

/// What the boundary wants done next. Every request but the last two is one
/// operation of the runtime, and is answered by a [`Reply`].
#[derive(Debug, PartialEq, Eq)]
pub enum Request<P> {
    /// Ask whether an exception is pending. Answered by `Reply::Pending`.
    IsExceptionPending,
    /// Take the pending exception and clear it. Answered by `Reply::Handle`.
    GetAndClearLastException,
    /// Create a string of the runtime. Answered by `Reply::Handle`.
    CreateString(String),
    /// Create an error object whose message is the given string. Answered by
    /// `Reply::Handle`.
    CreateError(Local),
    /// Box the payload behind an external handle whose finalizer drops it.
    /// Answered by `Reply::Handle`.
    CreateExternal(P),
    /// Set a property of an object. Answered by `Reply::Done`.
    SetProperty { object: Local, key: Local, value: Local },
    /// Resolve the promise. Answered by `Reply::Done`.
    ResolveDeferred(Deferred, Local),
    /// Reject the promise. Answered by `Reply::Done`.
    RejectDeferred(Deferred, Local),
    /// Emit the error as an uncaught exception. Answered by `Reply::Done`.
    FatalException(Local),
    /// Abort the process with this message. Nothing follows.
    FatalError(String),
    /// Nothing is left to do.
    Return,
}

/// The mathematical value of a [`Request`].
pub enum RequestView<P> {
    IsExceptionPending,
    GetAndClearLastException,
    CreateString(Seq<char>),
    CreateError(Local),
    CreateExternal(P),
    SetProperty { object: Local, key: Local, value: Local },
    ResolveDeferred(Deferred, Local),
    RejectDeferred(Deferred, Local),
    FatalException(Local),
    FatalError(Seq<char>),
    Return,
}

impl<P> RequestView<P> {
    /// Whether the request settles the outcome: it resolves or rejects the
    /// promise, or emits an uncaught exception.
    pub open spec fn settles(self) -> bool {
        self is ResolveDeferred || self is RejectDeferred || self is FatalException
    }

    /// Whether the reply says that the operation succeeded, in the form in
    /// which this request is answered.
    pub open spec fn answered_by(self, reply: Reply) -> bool {
        match self {
            RequestView::IsExceptionPending => reply is Pending,
            RequestView::GetAndClearLastException
            | RequestView::CreateString(_)
            | RequestView::CreateError(_)
            | RequestView::CreateExternal(_) => reply is Handle,
            RequestView::SetProperty { .. }
            | RequestView::ResolveDeferred(_, _)
            | RequestView::RejectDeferred(_, _)
            | RequestView::FatalException(_) => reply is Done,
            RequestView::FatalError(_) | RequestView::Return => false,
        }
    }

    /// The message with which the process is aborted when the operation
    /// fails.
    pub open spec fn diagnostic(self) -> Seq<char> {
        match self {
            RequestView::IsExceptionPending => FAILED_PENDING@,
            RequestView::GetAndClearLastException => FAILED_EXCEPTION@,
            RequestView::CreateString(_) => FAILED_STRING@,
            RequestView::CreateError(_) => FAILED_ERROR@,
            RequestView::CreateExternal(_) => FAILED_EXTERNAL@,
            RequestView::SetProperty { .. } => FAILED_PROPERTY@,
            RequestView::ResolveDeferred(_, _) => FAILED_RESOLVE@,
            RequestView::RejectDeferred(_, _) => FAILED_REJECT@,
            RequestView::FatalException(_) => FAILED_EMIT@,
            RequestView::FatalError(_) | RequestView::Return => Seq::empty(),
        }
    }
}

impl<P> View for Request<P> {
    type V = RequestView<P>;

    open spec fn view(&self) -> RequestView<P> {
        match self {
            Request::IsExceptionPending => RequestView::IsExceptionPending,
            Request::GetAndClearLastException => RequestView::GetAndClearLastException,
            Request::CreateString(text) => RequestView::CreateString(text@),
            Request::CreateError(message) => RequestView::CreateError(*message),
            Request::CreateExternal(payload) => RequestView::CreateExternal(*payload),
            Request::SetProperty { object, key, value } => RequestView::SetProperty {
                object: *object,
                key: *key,
                value: *value,
            },
            Request::ResolveDeferred(deferred, value) => RequestView::ResolveDeferred(
                *deferred,
                *value,
            ),
            Request::RejectDeferred(deferred, value) => RequestView::RejectDeferred(
                *deferred,
                *value,
            ),
            Request::FatalException(error) => RequestView::FatalException(*error),
            Request::FatalError(message) => RequestView::FatalError(message@),
            Request::Return => RequestView::Return,
        }
    }
}

/// How the runtime answered a request.
#[derive(Clone, Copy, Debug, PartialEq, Eq, Structural)]
pub enum Reply {
    /// The answer to `Request::IsExceptionPending`.
    Pending(bool),
    /// The operation succeeded and produced this handle.
    Handle(Local),
    /// The operation succeeded and produced nothing.
    Done,
    /// The operation failed.
    Failed,
}

} // verus!
