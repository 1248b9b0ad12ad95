//! The boundary as a transition system over mathematical values: the state
//! of one activation, and the request that follows each reply.
use vstd::prelude::*;
use crate::boundary::{recovery, Failure, FailureBoundaryView, Recovery};
use crate::handle::{Deferred, Env, Local};
use crate::payload::{PanicPayloadView, UNKNOWN_PANIC_MESSAGE};
use crate::protocol::{
    Reply, RequestView, CAUSE, FAILED_EMIT, FAILED_ERROR, FAILED_EXCEPTION, FAILED_EXTERNAL,
    FAILED_PENDING, FAILED_PROPERTY, FAILED_REJECT, FAILED_RESOLVE, FAILED_STRING, PANIC,
};

verus! {

/// The request that an activation has made and not yet had an answer to,
/// with the handles that it keeps for what follows. `error` is the error
/// made for the failure, `detail` the error made for the panic.
#[derive(Clone, Copy, Debug, PartialEq, Eq, Structural)]
pub enum Phase {
    /// Asked whether an exception is pending.
    Probing,
    /// Asked for the pending exception.
    Catching,
    /// Asked for the string of the failure's message.
    Message,
    /// Asked for the error of the failure.
    Error,
    /// Asked for the string `cause`, the key under which `cause` goes.
    CauseKey { error: Local, cause: Local },
    /// Asked to set the exception as the error's `cause`.
    Cause { error: Local },
    /// Asked for the string of the panic's message.
    PanicMessage { error: Local },
    /// Asked for the error of the panic.
    PanicError { error: Local },
    /// Asked to box the panic's payload.
    External { error: Local, detail: Local },
    /// Asked for the string `cause`, the key under which `external` goes.
    ExternalKey { error: Local, detail: Local, external: Local },
    /// Asked to set the boxed payload as the `cause` of the panic's error.
    ExternalCause { error: Local, detail: Local },
    /// Asked for the string `panic`, the key under which `detail` goes.
    PanicKey { error: Local, detail: Local },
    /// Asked to set the panic's error as the error's `panic`.
    Panic { error: Local },
    /// Asked to resolve the promise.
    Resolving,
    /// Asked to reject the promise.
    Rejecting,
    /// Asked to emit the error as an uncaught exception.
    Emitting,
}

impl Phase {
    /// The message with which the process is aborted when the pending
    /// request fails.
    pub open spec fn spec_diagnostic(self) -> Seq<char> {
        match self {
            Phase::Probing => FAILED_PENDING@,
            Phase::Catching => FAILED_EXCEPTION@,
            Phase::Message
            | Phase::CauseKey { .. }
            | Phase::PanicMessage { .. }
            | Phase::ExternalKey { .. }
            | Phase::PanicKey { .. } => FAILED_STRING@,
            Phase::Error | Phase::PanicError { .. } => FAILED_ERROR@,
            Phase::External { .. } => FAILED_EXTERNAL@,
            Phase::Cause { .. } | Phase::ExternalCause { .. } | Phase::Panic { .. } =>
                FAILED_PROPERTY@,
            Phase::Resolving => FAILED_RESOLVE@,
            Phase::Rejecting => FAILED_REJECT@,
            Phase::Emitting => FAILED_EMIT@,
        }
    }

    /// The message with which the process is aborted when the pending
    /// request fails.
    pub fn diagnostic(self) -> (text: &'static str)
        ensures
            text@ == self.spec_diagnostic(),
    {
        match self {
            Phase::Probing => FAILED_PENDING,
            Phase::Catching => FAILED_EXCEPTION,
            Phase::Message
            | Phase::CauseKey { .. }
            | Phase::PanicMessage { .. }
            | Phase::ExternalKey { .. }
            | Phase::PanicKey { .. } => FAILED_STRING,
            Phase::Error | Phase::PanicError { .. } => FAILED_ERROR,
            Phase::External { .. } => FAILED_EXTERNAL,
            Phase::Cause { .. } | Phase::ExternalCause { .. } | Phase::Panic { .. } =>
                FAILED_PROPERTY,
            Phase::Resolving => FAILED_RESOLVE,
            Phase::Rejecting => FAILED_REJECT,
            Phase::Emitting => FAILED_EMIT,
        }
    }

    /// Whether `request` is the request that this phase awaits the reply to.
    pub open spec fn awaits<P>(self, request: RequestView<P>) -> bool {
        match self {
            Phase::Probing => request is IsExceptionPending,
            Phase::Catching => request is GetAndClearLastException,
            Phase::Message | Phase::PanicMessage { .. } => request is CreateString,
            Phase::Error | Phase::PanicError { .. } => request is CreateError,
            Phase::CauseKey { .. } | Phase::ExternalKey { .. } => request
                == RequestView::<P>::CreateString(CAUSE@),
            Phase::PanicKey { .. } => request == RequestView::<P>::CreateString(PANIC@),
            Phase::Cause { error } => request matches RequestView::SetProperty { object, .. }
                && object == error,
            Phase::ExternalCause { detail, .. } => request matches RequestView::SetProperty {
                object,
                ..
            } && object == detail,
            Phase::Panic { error } => request matches RequestView::SetProperty { object, .. }
                && object == error,
            Phase::External { .. } => request is CreateExternal,
            Phase::Resolving => request is ResolveDeferred,
            Phase::Rejecting => request is RejectDeferred,
            Phase::Emitting => request is FatalException,
        }
    }

    /// Whether an error is being made: the phases from the first string to
    /// the last property.
    pub open spec fn constructing(self) -> bool {
        !(self is Probing || self is Catching || self is Resolving || self is Rejecting
            || self is Emitting)
    }

    /// Whether the promise is being settled or the error emitted.
    pub open spec fn settling(self) -> bool {
        self is Resolving || self is Rejecting || self is Emitting
    }

    /// A bound on the number of replies that the activation still takes.
    pub open spec fn rank(self) -> nat {
        match self {
            Phase::Probing => 14,
            Phase::Catching => 13,
            Phase::Message => 12,
            Phase::Error => 11,
            Phase::CauseKey { .. } => 10,
            Phase::Cause { .. } => 9,
            Phase::PanicMessage { .. } => 8,
            Phase::PanicError { .. } => 7,
            Phase::External { .. } => 6,
            Phase::ExternalKey { .. } => 5,
            Phase::ExternalCause { .. } => 4,
            Phase::PanicKey { .. } => 3,
            Phase::Panic { .. } => 2,
            Phase::Resolving | Phase::Rejecting | Phase::Emitting => 1,
        }
    }
}

/// The state of one activation of the boundary.
pub struct ActivationView<P> {
    /// The messages of the boundary.
    pub boundary: FailureBoundaryView,
    /// The promise that waits for the work, until it is settled.
    pub deferred: Option<Deferred>,
    /// Whether the runtime can emit an uncaught exception.
    pub can_emit: bool,
    /// What the work returned; absent when it panicked.
    pub returned: Option<Local>,
    /// The exception that the work left pending, once it has been taken.
    pub exception: Option<Local>,
    /// The payload of the panic, until it has gone into a request.
    pub panic: Option<PanicPayloadView<P>>,
    /// The request that awaits its reply; absent when nothing is left to do.
    pub phase: Option<Phase>,
}

impl<P> ActivationView<P> {
    /// Whether nothing is left to do.
    pub open spec fn finished(self) -> bool {
        self.phase.is_none()
    }

    /// A bound on the number of replies that the activation still takes.
    pub open spec fn rank(self) -> nat {
        match self.phase {
            Some(phase) => phase.rank(),
            None => 0,
        }
    }

    /// What holds of every activation: an error is only made where it can go
    /// to a promise or be emitted, and is only emitted where the runtime can.
    pub open spec fn wf(self) -> bool {
        match self.phase {
            Some(phase) => {
                &&& phase.constructing() ==> self.deferred.is_some() || self.can_emit
                &&& phase is Emitting ==> self.can_emit
            },
            None => true,
        }
    }

    /// The same activation, awaiting the reply to another request.
    pub open spec fn at(self, phase: Phase) -> Self {
        ActivationView { phase: Some(phase), ..self }
    }

    /// The same activation with nothing left to do.
    pub open spec fn end(self) -> Self {
        ActivationView { phase: None, ..self }
    }

    /// The message with which the process is aborted where nothing else can
    /// be done about a failure: the panic's own, if it has one, else the
    /// boundary's message for the failure.
    pub open spec fn abort_message(self, failure: Failure) -> Seq<char> {
        match self.panic {
            Some(PanicPayloadView::Message(text)) => text,
            _ => self.boundary.message(failure),
        }
    }

    /// The first step after the exception has been looked for: the recovery
    /// that the table gives, or the first request of it.
    pub open spec fn recover(self) -> (Self, RequestView<P>) {
        match recovery(self.deferred.is_some(), self.exception, self.returned, self.can_emit) {
            Recovery::Complete => (self.end(), RequestView::Return),
            Recovery::Resolve(value) => (
                ActivationView { deferred: None, ..self }.at(Phase::Resolving),
                RequestView::ResolveDeferred(self.deferred.unwrap(), value),
            ),
            Recovery::Forward(thrown) => (
                ActivationView { deferred: None, ..self }.at(Phase::Rejecting),
                RequestView::RejectDeferred(self.deferred.unwrap(), thrown),
            ),
            Recovery::Reject(failure) | Recovery::Emit(failure) => (
                self.at(Phase::Message),
                RequestView::CreateString(self.boundary.message(failure)),
            ),
            Recovery::Abort(failure) => (
                ActivationView { panic: None, ..self }.end(),
                RequestView::FatalError(self.abort_message(failure)),
            ),
        }
    }

    /// What follows once the error of the failure exists: the exception, if
    /// there is one, becomes its `cause`.
    pub open spec fn attach_cause(self, error: Local) -> (Self, RequestView<P>) {
        match self.exception {
            Some(cause) => (
                self.at(Phase::CauseKey { error, cause }),
                RequestView::CreateString(CAUSE@),
            ),
            None => self.attach_panic(error),
        }
    }

    /// What follows once the exception is attached: an error is made for the
    /// panic, if there was one, from its message or from the message that
    /// stands for a payload without text.
    pub open spec fn attach_panic(self, error: Local) -> (Self, RequestView<P>) {
        match self.panic {
            Some(PanicPayloadView::Message(text)) => (
                ActivationView { panic: None, ..self }.at(Phase::PanicMessage { error }),
                RequestView::CreateString(text),
            ),
            Some(PanicPayloadView::Opaque(_)) => (
                self.at(Phase::PanicMessage { error }),
                RequestView::CreateString(UNKNOWN_PANIC_MESSAGE@),
            ),
            None => self.settle(error),
        }
    }

    /// What follows once the error of the panic exists: a payload without
    /// text is boxed, to become the `cause` of that error; then the error
    /// becomes the `panic` of the failure's error.
    pub open spec fn attach_payload(self, error: Local, detail: Local) -> (Self, RequestView<P>) {
        match self.panic {
            Some(PanicPayloadView::Opaque(payload)) => (
                ActivationView { panic: None, ..self }.at(Phase::External { error, detail }),
                RequestView::CreateExternal(payload),
            ),
            _ => (self.at(Phase::PanicKey { error, detail }), RequestView::CreateString(PANIC@)),
        }
    }

    /// What is done with the finished error: it rejects the promise if there
    /// is one, and is emitted as an uncaught exception if there is none.
    pub open spec fn settle(self, error: Local) -> (Self, RequestView<P>) {
        match self.deferred {
            Some(deferred) => (
                ActivationView { deferred: None, ..self }.at(Phase::Rejecting),
                RequestView::RejectDeferred(deferred, error),
            ),
            None => (self.at(Phase::Emitting), RequestView::FatalException(error)),
        }
    }

    /// The step that a reply leads to, if it answers the request that
    /// `phase` stands for with success.
    pub open spec fn advance(self, phase: Phase, reply: Reply) -> Option<(Self, RequestView<P>)> {
        match (phase, reply) {
            (Phase::Probing, Reply::Pending(pending)) => Some(
                if pending {
                    (self.at(Phase::Catching), RequestView::GetAndClearLastException)
                } else {
                    self.recover()
                },
            ),
            (Phase::Catching, Reply::Handle(thrown)) => Some(
                ActivationView { exception: Some(thrown), ..self }.recover(),
            ),
            (Phase::Message, Reply::Handle(message)) => Some(
                (self.at(Phase::Error), RequestView::CreateError(message)),
            ),
            (Phase::Error, Reply::Handle(error)) => Some(self.attach_cause(error)),
            (Phase::CauseKey { error, cause }, Reply::Handle(key)) => Some(
                (
                    self.at(Phase::Cause { error }),
                    RequestView::SetProperty { object: error, key, value: cause },
                ),
            ),
            (Phase::Cause { error }, Reply::Done) => Some(self.attach_panic(error)),
            (Phase::PanicMessage { error }, Reply::Handle(message)) => Some(
                (self.at(Phase::PanicError { error }), RequestView::CreateError(message)),
            ),
            (Phase::PanicError { error }, Reply::Handle(detail)) => Some(
                self.attach_payload(error, detail),
            ),
            (Phase::External { error, detail }, Reply::Handle(external)) => Some(
                (
                    self.at(Phase::ExternalKey { error, detail, external }),
                    RequestView::CreateString(CAUSE@),
                ),
            ),
            (Phase::ExternalKey { error, detail, external }, Reply::Handle(key)) => Some(
                (
                    self.at(Phase::ExternalCause { error, detail }),
                    RequestView::SetProperty { object: detail, key, value: external },
                ),
            ),
            (Phase::ExternalCause { error, detail }, Reply::Done) => Some(
                (self.at(Phase::PanicKey { error, detail }), RequestView::CreateString(PANIC@)),
            ),
            (Phase::PanicKey { error, detail }, Reply::Handle(key)) => Some(
                (
                    self.at(Phase::Panic { error }),
                    RequestView::SetProperty { object: error, key, value: detail },
                ),
            ),
            (Phase::Panic { error }, Reply::Done) => Some(self.settle(error)),
            (Phase::Resolving, Reply::Done) => Some((self.end(), RequestView::Return)),
            (Phase::Rejecting, Reply::Done) => Some((self.end(), RequestView::Return)),
            (Phase::Emitting, Reply::Done) => Some((self.end(), RequestView::Return)),
            _ => None,
        }
    }

    /// The state and the request that follow a reply. A reply that does not
    /// answer the pending request with success, whatever else it is, aborts
    /// the process with the diagnostic of that request. Once nothing is left
    /// to do, nothing is asked for any more.
    pub open spec fn next(self, reply: Reply) -> (Self, RequestView<P>) {
        match self.phase {
            None => (self, RequestView::Return),
            Some(phase) => match self.advance(phase, reply) {
                Some(step) => step,
                None => (self.end(), RequestView::FatalError(phase.spec_diagnostic())),
            },
        }
    }
}

/// Whether a state and a request belong together: the request is the one
/// that the state awaits the reply to, or, once nothing is left to do, the
/// one that ended the activation. An error is only being made where it can
/// go to a promise or be emitted, and only emitted where the runtime can.
pub open spec fn paired<P>(at: (ActivationView<P>, RequestView<P>)) -> bool {
    match at.0.phase {
        Some(phase) => phase.awaits(at.1) && at.0.wf(),
        None => at.1 is Return || at.1 is FatalError,
    }
}

/// The state and the request after a run: after the replies have been taken
/// in order, whatever they are.
pub open spec fn run<P>(at: (ActivationView<P>, RequestView<P>), replies: Seq<Reply>) -> (
    ActivationView<P>,
    RequestView<P>,
)
    decreases replies.len(),
{
    if replies.len() == 0 {
        at
    } else {
        run(at, replies.drop_last()).0.next(replies.last())
    }
}

/// The number of times that a run settles: the requests to resolve, to
/// reject and to emit among the request that it starts with and those that
/// it makes.
pub open spec fn settlements<P>(
    at: (ActivationView<P>, RequestView<P>),
    replies: Seq<Reply>,
) -> nat
    decreases replies.len(),
{
    let last: nat = if run(at, replies).1.settles() {
        1
    } else {
        0
    };
    if replies.len() == 0 {
        last
    } else {
        settlements(at, replies.drop_last()) + last
    }
}

/// The state in which an activation begins, and its first request, for the
/// outcome of a unit of work: the value that it returned, or the payload
/// that it panicked with.
///
/// Without an environment no exception can be looked for and no promise
/// settled: a panic aborts the process with its message, and a value is the
/// end. With one, the activation begins by asking for a pending exception.
pub open spec fn begin<P>(
    boundary: FailureBoundaryView,
    env: Env,
    deferred: Option<Deferred>,
    outcome: Result<Local, PanicPayloadView<P>>,
    can_emit: bool,
) -> (ActivationView<P>, RequestView<P>) {
    let start = ActivationView {
        boundary,
        deferred,
        can_emit,
        returned: match outcome {
            Ok(value) => Some(value),
            Err(_) => None,
        },
        exception: None,
        panic: match outcome {
            Ok(_) => None,
            Err(payload) => Some(payload),
        },
        phase: Some(Phase::Probing),
    };
    if env.raw != 0 {
        (start, RequestView::IsExceptionPending)
    } else {
        match outcome {
            Ok(_) => (start.end(), RequestView::Return),
            Err(payload) => (
                ActivationView { panic: None, ..start }.end(),
                RequestView::FatalError(payload.message_or_unknown()),
            ),
        }
    }
}

} // verus!
