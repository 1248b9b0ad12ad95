//! What the boundary does to the runtime, written as the exchanges of one
//! run in which every operation succeeds: each request with its reply, in
//! the order in which they are made.
use vstd::prelude::*;
use crate::boundary::FailureBoundaryView;
use crate::handle::{Deferred, Local};
use crate::model::ActivationView;
use crate::payload::{PanicPayloadView, UNKNOWN_PANIC_MESSAGE};
use crate::protocol::{Reply, RequestView, CAUSE, PANIC};

verus! {

/// A request and the reply that it got.
pub struct Exchange<P> {
    pub request: RequestView<P>,
    pub reply: Reply,
}

/// The handles that the runtime gives out while an error is made.
pub struct Handles {
    /// The string of the failure's message.
    pub message: Local,
    /// The error of the failure.
    pub error: Local,
    /// The string `cause`, as the key of the exception.
    pub cause_key: Local,
    /// The string of the panic's message.
    pub panic_message: Local,
    /// The error of the panic.
    pub detail: Local,
    /// The boxed payload of the panic.
    pub external: Local,
    /// The string `cause`, as the key of the boxed payload.
    pub external_key: Local,
    /// The string `panic`, as the key of the panic's error.
    pub panic_key: Local,
}

/// A string of the runtime is created.
pub open spec fn create_string<P>(text: Seq<char>, handle: Local) -> Seq<Exchange<P>> {
    seq![Exchange { request: RequestView::CreateString(text), reply: Reply::Handle(handle) }]
}

/// An error is made from a message: the message becomes a string, and the
/// string the message of a new error.
pub open spec fn error_from_message<P>(text: Seq<char>, message: Local, error: Local) -> Seq<
    Exchange<P>,
> {
    create_string(text, message) + seq![
        Exchange { request: RequestView::CreateError(message), reply: Reply::Handle(error) },
    ]
}

/// A property is set: its name becomes a string, and the value goes to the
/// object under that key.
pub open spec fn set_property<P>(object: Local, name: Seq<char>, key: Local, value: Local) -> Seq<
    Exchange<P>,
> {
    create_string(name, key) + seq![
        Exchange { request: RequestView::SetProperty { object, key, value }, reply: Reply::Done },
    ]
}

/// The payload of a panic is boxed behind an external handle.
pub open spec fn external_from_panic<P>(payload: P, external: Local) -> Seq<Exchange<P>> {
    seq![
        Exchange { request: RequestView::CreateExternal(payload), reply: Reply::Handle(external) },
    ]
}

/// An error is made from a panic. A payload that holds a text gives an error
/// with that message. Any other payload gives an error with the message that
/// stands for an unknown panic, and is boxed to become the `cause` of it.
pub open spec fn error_from_panic<P>(panic: PanicPayloadView<P>, h: Handles) -> Seq<Exchange<P>> {
    match panic {
        PanicPayloadView::Message(text) => error_from_message(text, h.panic_message, h.detail),
        PanicPayloadView::Opaque(payload) => error_from_message(
            UNKNOWN_PANIC_MESSAGE@,
            h.panic_message,
            h.detail,
        ) + external_from_panic(payload, h.external) + set_property(
            h.detail,
            CAUSE@,
            h.external_key,
            h.external,
        ),
    }
}

/// The error of a failure is made: an error with the given message, with
/// the exception as its `cause` if there is one, and with the error made
/// from the panic as its `panic` if there was one.
pub open spec fn create_error<P>(
    text: Seq<char>,
    exception: Option<Local>,
    panic: Option<PanicPayloadView<P>>,
    h: Handles,
) -> Seq<Exchange<P>> {
    error_from_message(text, h.message, h.error) + (match exception {
        Some(thrown) => set_property(h.error, CAUSE@, h.cause_key, thrown),
        None => Seq::empty(),
    }) + (match panic {
        Some(payload) => error_from_panic(payload, h) + set_property(
            h.error,
            PANIC@,
            h.panic_key,
            h.detail,
        ),
        None => Seq::empty(),
    })
}

/// The pending exception is looked for and, if there is one, taken.
pub open spec fn catch_exception<P>(exception: Option<Local>) -> Seq<Exchange<P>> {
    match exception {
        None => seq![
            Exchange { request: RequestView::IsExceptionPending, reply: Reply::Pending(false) },
        ],
        Some(thrown) => seq![
            Exchange { request: RequestView::IsExceptionPending, reply: Reply::Pending(true) },
            Exchange {
                request: RequestView::GetAndClearLastException,
                reply: Reply::Handle(thrown),
            },
        ],
    }
}

/// The promise is resolved.
pub open spec fn resolve_deferred<P>(deferred: Deferred, value: Local) -> Seq<Exchange<P>> {
    seq![Exchange { request: RequestView::ResolveDeferred(deferred, value), reply: Reply::Done }]
}

/// The promise is rejected.
pub open spec fn reject_deferred<P>(deferred: Deferred, value: Local) -> Seq<Exchange<P>> {
    seq![Exchange { request: RequestView::RejectDeferred(deferred, value), reply: Reply::Done }]
}

/// The error is emitted as an uncaught exception.
pub open spec fn fatal_exception<P>(error: Local) -> Seq<Exchange<P>> {
    seq![Exchange { request: RequestView::FatalException(error), reply: Reply::Done }]
}

/// A failure is reported with the given message: through the promise, if
/// there is one; else as an uncaught exception, if the runtime can emit one.
/// Where neither can be done, nothing is asked of the runtime.
pub open spec fn report<P>(
    text: Seq<char>,
    deferred: Option<Deferred>,
    exception: Option<Local>,
    panic: Option<PanicPayloadView<P>>,
    can_emit: bool,
    h: Handles,
) -> Seq<Exchange<P>> {
    match deferred {
        Some(promise) => create_error(text, exception, panic, h) + reject_deferred(
            promise,
            h.error,
        ),
        None => if can_emit {
            create_error(text, exception, panic, h) + fatal_exception(h.error)
        } else {
            Seq::empty()
        },
    }
}

/// Everything that is exchanged with a live runtime about the outcome of a
/// unit of work that left `exception` pending, when every operation
/// succeeds.
pub open spec fn transcript<P>(
    boundary: FailureBoundaryView,
    deferred: Option<Deferred>,
    outcome: Result<Local, PanicPayloadView<P>>,
    exception: Option<Local>,
    can_emit: bool,
    h: Handles,
) -> Seq<Exchange<P>> {
    catch_exception(exception) + (match (exception, outcome) {
        (Some(_), Err(payload)) => report(
            boundary.both,
            deferred,
            exception,
            Some(payload),
            can_emit,
            h,
        ),
        (Some(thrown), Ok(_)) => match deferred {
            Some(promise) => reject_deferred(promise, thrown),
            None => report(boundary.exception, deferred, exception, None, can_emit, h),
        },
        (None, Err(payload)) => report(
            boundary.panic,
            deferred,
            exception,
            Some(payload),
            can_emit,
            h,
        ),
        (None, Ok(value)) => match deferred {
            Some(promise) => resolve_deferred(promise, value),
            None => Seq::empty(),
        },
    })
}

/// The request that ends such a run. A failure that can go neither to a
/// promise nor into an uncaught exception aborts the process, with the
/// panic's own message if it has one and with the boundary's message
/// otherwise. Everything else ends with nothing left to do.
pub open spec fn conclusion<P>(
    boundary: FailureBoundaryView,
    deferred: Option<Deferred>,
    outcome: Result<Local, PanicPayloadView<P>>,
    exception: Option<Local>,
    can_emit: bool,
) -> RequestView<P> {
    if deferred.is_some() || can_emit {
        RequestView::Return
    } else {
        match (exception, outcome) {
            (None, Ok(_)) => RequestView::Return,
            (_, Err(PanicPayloadView::Message(text))) => RequestView::FatalError(text),
            (Some(_), Err(PanicPayloadView::Opaque(_))) => RequestView::FatalError(boundary.both),
            (None, Err(PanicPayloadView::Opaque(_))) => RequestView::FatalError(boundary.panic),
            (Some(_), Ok(_)) => RequestView::FatalError(boundary.exception),
        }
    }
}

/// Where an activation stands after a script, if it follows the script: the
/// activation has made the first request of the script, makes the second on
/// the reply to the first, and so on. `at` is a state with the request that
/// it has made.
pub open spec fn replay<P>(
    at: (ActivationView<P>, RequestView<P>),
    script: Seq<Exchange<P>>,
) -> Option<(ActivationView<P>, RequestView<P>)>
    decreases script.len(),
{
    if script.len() == 0 {
        Some(at)
    } else if at.1 == script.first().request {
        replay(at.0.next(script.first().reply), script.drop_first())
    } else {
        None
    }
}

} // verus!
