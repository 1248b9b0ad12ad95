//! One activation of the boundary: what is done, request by request, about
//! the outcome of one unit of work.
use vstd::prelude::*;
use crate::boundary::{FailureBoundary, Recovery};
use crate::handle::{Deferred, Env, Local};
use crate::model::{begin, ActivationView, Phase};
use crate::payload::{outcome_view, PanicPayload, UNKNOWN_PANIC_MESSAGE};
use crate::protocol::{Reply, Request, CAUSE, PANIC};

verus! {

/// The state of one activation. It is made by
/// [`FailureBoundary::catch_failure`] and driven by [`Activation::step`].
pub struct Activation<P> {
    boundary: FailureBoundary,
    deferred: Option<Deferred>,
    can_emit: bool,
    returned: Option<Local>,
    exception: Option<Local>,
    panic: Option<PanicPayload<P>>,
    phase: Option<Phase>,
}

impl<P> View for Activation<P> {
    type V = ActivationView<P>;

    closed spec fn view(&self) -> ActivationView<P> {
        ActivationView {
            boundary: self.boundary@,
            deferred: self.deferred,
            can_emit: self.can_emit,
            returned: self.returned,
            exception: self.exception,
            panic: match self.panic {
                Some(payload) => Some(payload@),
                None => None,
            },
            phase: self.phase,
        }
    }
}

impl FailureBoundary {
    /// Begins an activation for the outcome of a unit of work that ran with
    /// `env.live()`: the value that it returned, or the payload of the panic
    /// that it unwound with. `deferred` is the promise that waits for the
    /// work, and `can_emit` says whether the runtime can emit an uncaught
    /// exception.
    ///
    /// Returns the activation with its first request. The caller performs
    /// each request and hands the reply to [`Activation::step`], until the
    /// request is `Return` or `FatalError`.
    pub fn catch_failure<P>(
        &self,
        env: Env,
        deferred: Option<Deferred>,
        outcome: Result<Local, PanicPayload<P>>,
        can_emit: bool,
    ) -> (started: (Activation<P>, Request<P>))
        ensures
            (started.0@, started.1@) == begin(
                self@,
                env,
                deferred,
                outcome_view(outcome),
                can_emit,
            ),
    {
        let mut activation = Activation {
            boundary: *self,
            deferred,
            can_emit,
            returned: None,
            exception: None,
            panic: None,
            phase: Some(Phase::Probing),
        };
        if env.is_null() {
            activation.phase = None;
            match outcome {
                Ok(value) => {
                    activation.returned = Some(value);
                    (activation, Request::Return)
                },
                Err(PanicPayload::Message(text)) => (activation, Request::FatalError(text)),
                Err(PanicPayload::Opaque(_)) => (
                    activation,
                    Request::FatalError(UNKNOWN_PANIC_MESSAGE.to_owned()),
                ),
            }
        } else {
            match outcome {
                Ok(value) => {
                    activation.returned = Some(value);
                },
                Err(payload) => {
                    activation.panic = Some(payload);
                },
            }
            (activation, Request::IsExceptionPending)
        }
    }
}

impl<P> Activation<P> {
    /// Whether nothing is left to do.
    pub fn is_finished(&self) -> (finished: bool)
        ensures
            finished == self@.finished(),
    {
        self.phase.is_none()
    }

    /// Takes the reply to the request that was made last, and returns the
    /// request that follows.
    pub fn step(&mut self, reply: Reply) -> (request: Request<P>)
        ensures
            (final(self)@, request@) == old(self)@.next(reply),
    {
        match self.phase {
            None => Request::Return,
            Some(phase) => match self.advance(phase, reply) {
                Some(request) => request,
                None => {
                    self.phase = None;
                    Request::FatalError(phase.diagnostic().to_owned())
                },
            },
        }
    }

    fn advance(&mut self, phase: Phase, reply: Reply) -> (request: Option<Request<P>>)
        ensures
            match old(self)@.advance(phase, reply) {
                Some(step) => request.is_some() && (final(self)@, request.unwrap()@) == step,
                None => request.is_none() && final(self)@ == old(self)@,
            },
    {
        match (phase, reply) {
            (Phase::Probing, Reply::Pending(pending)) => {
                if pending {
                    self.phase = Some(Phase::Catching);
                    Some(Request::GetAndClearLastException)
                } else {
                    Some(self.recover())
                }
            },
            (Phase::Catching, Reply::Handle(thrown)) => {
                self.exception = Some(thrown);
                Some(self.recover())
            },
            (Phase::Message, Reply::Handle(message)) => {
                self.phase = Some(Phase::Error);
                Some(Request::CreateError(message))
            },
            (Phase::Error, Reply::Handle(error)) => Some(self.attach_cause(error)),
            (Phase::CauseKey { error, cause }, Reply::Handle(key)) => {
                self.phase = Some(Phase::Cause { error });
                Some(Request::SetProperty { object: error, key, value: cause })
            },
            (Phase::Cause { error }, Reply::Done) => Some(self.attach_panic(error)),
            (Phase::PanicMessage { error }, Reply::Handle(message)) => {
                self.phase = Some(Phase::PanicError { error });
                Some(Request::CreateError(message))
            },
            (Phase::PanicError { error }, Reply::Handle(detail)) => Some(
                self.attach_payload(error, detail),
            ),
            (Phase::External { error, detail }, Reply::Handle(external)) => {
                self.phase = Some(Phase::ExternalKey { error, detail, external });
                Some(Request::CreateString(CAUSE.to_owned()))
            },
            (Phase::ExternalKey { error, detail, external }, Reply::Handle(key)) => {
                self.phase = Some(Phase::ExternalCause { error, detail });
                Some(Request::SetProperty { object: detail, key, value: external })
            },
            (Phase::ExternalCause { error, detail }, Reply::Done) => {
                self.phase = Some(Phase::PanicKey { error, detail });
                Some(Request::CreateString(PANIC.to_owned()))
            },
            (Phase::PanicKey { error, detail }, Reply::Handle(key)) => {
                self.phase = Some(Phase::Panic { error });
                Some(Request::SetProperty { object: error, key, value: detail })
            },
            (Phase::Panic { error }, Reply::Done) => Some(self.settle(error)),
            (Phase::Resolving, Reply::Done) => {
                self.phase = None;
                Some(Request::Return)
            },
            (Phase::Rejecting, Reply::Done) => {
                self.phase = None;
                Some(Request::Return)
            },
            (Phase::Emitting, Reply::Done) => {
                self.phase = None;
                Some(Request::Return)
            },
            _ => None,
        }
    }

    fn recover(&mut self) -> (request: Request<P>)
        ensures
            (final(self)@, request@) == old(self)@.recover(),
    {
        let chosen = Recovery::decide(
            self.deferred.is_some(),
            self.exception,
            self.returned,
            self.can_emit,
        );
        match chosen {
            Recovery::Complete => {
                self.phase = None;
                Request::Return
            },
            Recovery::Resolve(value) => {
                let deferred = self.deferred.take().unwrap();
                self.phase = Some(Phase::Resolving);
                Request::ResolveDeferred(deferred, value)
            },
            Recovery::Forward(thrown) => {
                let deferred = self.deferred.take().unwrap();
                self.phase = Some(Phase::Rejecting);
                Request::RejectDeferred(deferred, thrown)
            },
            Recovery::Reject(failure) | Recovery::Emit(failure) => {
                self.phase = Some(Phase::Message);
                Request::CreateString(self.boundary.message(failure).to_owned())
            },
            Recovery::Abort(failure) => {
                self.phase = None;
                match self.panic.take() {
                    Some(PanicPayload::Message(text)) => Request::FatalError(text),
                    _ => Request::FatalError(self.boundary.message(failure).to_owned()),
                }
            },
        }
    }

    fn attach_cause(&mut self, error: Local) -> (request: Request<P>)
        ensures
            (final(self)@, request@) == old(self)@.attach_cause(error),
    {
        match self.exception {
            Some(cause) => {
                self.phase = Some(Phase::CauseKey { error, cause });
                Request::CreateString(CAUSE.to_owned())
            },
            None => self.attach_panic(error),
        }
    }

    fn attach_panic(&mut self, error: Local) -> (request: Request<P>)
        ensures
            (final(self)@, request@) == old(self)@.attach_panic(error),
    {
        match self.panic.take() {
            Some(PanicPayload::Message(text)) => {
                self.phase = Some(Phase::PanicMessage { error });
                Request::CreateString(text)
            },
            Some(PanicPayload::Opaque(payload)) => {
                self.panic = Some(PanicPayload::Opaque(payload));
                self.phase = Some(Phase::PanicMessage { error });
                Request::CreateString(UNKNOWN_PANIC_MESSAGE.to_owned())
            },
            None => self.settle(error),
        }
    }

    fn attach_payload(&mut self, error: Local, detail: Local) -> (request: Request<P>)
        ensures
            (final(self)@, request@) == old(self)@.attach_payload(error, detail),
    {
        match self.panic.take() {
            Some(PanicPayload::Opaque(payload)) => {
                self.phase = Some(Phase::External { error, detail });
                Request::CreateExternal(payload)
            },
            other => {
                self.panic = other;
                self.phase = Some(Phase::PanicKey { error, detail });
                Request::CreateString(PANIC.to_owned())
            },
        }
    }

    fn settle(&mut self, error: Local) -> (request: Request<P>)
        ensures
            (final(self)@, request@) == old(self)@.settle(error),
    {
        match self.deferred.take() {
            Some(deferred) => {
                self.phase = Some(Phase::Rejecting);
                Request::RejectDeferred(deferred, error)
            },
            None => {
                self.phase = Some(Phase::Emitting);
                Request::FatalException(error)
            },
        }
    }
}

} // verus!
