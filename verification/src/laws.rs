//! What holds of every run of the boundary.
use vstd::prelude::*;
use crate::boundary::{failure_of, recovery, FailureBoundaryView, Recovery};
use crate::handle::{Deferred, Env, Local};
use crate::model::{begin, paired, run, settlements, ActivationView, Phase};
use crate::payload::{PanicPayloadView, UNKNOWN_PANIC_MESSAGE};
use crate::protocol::{Reply, RequestView, CAUSE, PANIC};
use crate::script::{
    catch_exception, conclusion, create_error, error_from_message, error_from_panic,
    external_from_panic, fatal_exception, reject_deferred, replay, report, resolve_deferred,
    set_property, transcript, Exchange, Handles,
};

verus! {

/// A script of one exchange is followed by making its request and taking
/// its reply.
proof fn lemma_replay_one<P>(at: (ActivationView<P>, RequestView<P>), exchange: Exchange<P>)
    ensures
        replay(at, seq![exchange]) == if at.1 == exchange.request {
            Some(at.0.next(exchange.reply))
        } else {
            None
        },
{
    let script = seq![exchange];
    assert(script.first() == exchange);
    assert(script.drop_first() =~= Seq::empty());
    if at.1 == exchange.request {
        assert(replay(at.0.next(exchange.reply), script.drop_first()) == Some(
            at.0.next(exchange.reply),
        ));
    }
}

/// Two scripts in a row are followed by following the first and, from where
/// it ends, the second.
proof fn lemma_replay_add<P>(
    at: (ActivationView<P>, RequestView<P>),
    first: Seq<Exchange<P>>,
    second: Seq<Exchange<P>>,
)
    ensures
        replay(at, first + second) == match replay(at, first) {
            Some(middle) => replay(middle, second),
            None => None,
        },
    decreases first.len(),
{
    if first.len() == 0 {
        assert(first + second =~= second);
    } else {
        assert((first + second).first() == first.first());
        assert((first + second).drop_first() =~= first.drop_first() + second);
        if at.1 == first.first().request {
            lemma_replay_add(at.0.next(first.first().reply), first.drop_first(), second);
        }
    }
}

/// A script of two exchanges in a row.
proof fn lemma_replay_two<P>(
    at: (ActivationView<P>, RequestView<P>),
    first: Exchange<P>,
    second: Exchange<P>,
)
    ensures
        replay(at, seq![first] + seq![second]) == if at.1 == first.request {
            let middle = at.0.next(first.reply);
            if middle.1 == second.request {
                Some(middle.0.next(second.reply))
            } else {
                None
            }
        } else {
            None
        },
{
    lemma_replay_add(at, seq![first], seq![second]);
    lemma_replay_one(at, first);
    if at.1 == first.request {
        lemma_replay_one(at.0.next(first.reply), second);
    }
}

/// Making the error of a failure, from the request for the string of its
/// message on, ends where the finished error is settled.
proof fn lemma_create_error<P>(state: ActivationView<P>, text: Seq<char>, h: Handles)
    requires
        state.phase == Some(Phase::Message),
    ensures
        replay(
            (state, RequestView::CreateString(text)),
            create_error(text, state.exception, state.panic, h),
        ) == Some(ActivationView { panic: None, ..state }.settle(h.error)),
{
    let at = (state, RequestView::<P>::CreateString(text));
    let made = error_from_message::<P>(text, h.message, h.error);
    let cause = match state.exception {
        Some(thrown) => set_property::<P>(h.error, CAUSE@, h.cause_key, thrown),
        None => Seq::empty(),
    };
    let panic = match state.panic {
        Some(payload) => error_from_panic(payload, h) + set_property(
            h.error,
            PANIC@,
            h.panic_key,
            h.detail,
        ),
        None => Seq::empty(),
    };
    lemma_replay_add(at, made + cause, panic);
    lemma_replay_add(at, made, cause);
    lemma_replay_two(
        at,
        Exchange { request: RequestView::CreateString(text), reply: Reply::Handle(h.message) },
        Exchange { request: RequestView::CreateError(h.message), reply: Reply::Handle(h.error) },
    );
    let at_error = state.at(Phase::Error).attach_cause(h.error);
    assert(replay(at, made) == Some(at_error));
    let at_cause = state.at(Phase::Error).attach_panic(h.error);
    match state.exception {
        Some(thrown) => {
            lemma_replay_two(
                at_error,
                Exchange {
                    request: RequestView::CreateString(CAUSE@),
                    reply: Reply::Handle(h.cause_key),
                },
                Exchange {
                    request: RequestView::SetProperty {
                        object: h.error,
                        key: h.cause_key,
                        value: thrown,
                    },
                    reply: Reply::Done,
                },
            );
        },
        None => {},
    }
    assert(replay(at_error, cause) == Some(at_cause));
    let settled = ActivationView { panic: None, ..state }.settle(h.error);
    match state.panic {
        Some(payload) => {
            let key = set_property::<P>(h.error, PANIC@, h.panic_key, h.detail);
            lemma_replay_add(at_cause, error_from_panic(payload, h), key);
            let message = Exchange::<P> {
                request: RequestView::CreateString(payload.message_or_unknown()),
                reply: Reply::Handle(h.panic_message),
            };
            let detail = Exchange::<P> {
                request: RequestView::CreateError(h.panic_message),
                reply: Reply::Handle(h.detail),
            };
            lemma_replay_two(at_cause, message, detail);
            match payload {
                PanicPayloadView::Message(_) => {},
                PanicPayloadView::Opaque(value) => {
                    let boxed = external_from_panic(value, h.external);
                    let attached = set_property::<P>(
                        h.detail,
                        CAUSE@,
                        h.external_key,
                        h.external,
                    );
                    lemma_replay_add(at_cause, seq![message] + seq![detail] + boxed, attached);
                    lemma_replay_add(at_cause, seq![message] + seq![detail], boxed);
                    let at_detail = replay(at_cause, seq![message] + seq![detail]).unwrap();
                    lemma_replay_one(
                        at_detail,
                        Exchange {
                            request: RequestView::CreateExternal(value),
                            reply: Reply::Handle(h.external),
                        },
                    );
                    let at_boxed = at_detail.0.next(Reply::Handle(h.external));
                    lemma_replay_two(
                        at_boxed,
                        Exchange {
                            request: RequestView::CreateString(CAUSE@),
                            reply: Reply::Handle(h.external_key),
                        },
                        Exchange {
                            request: RequestView::SetProperty {
                                object: h.detail,
                                key: h.external_key,
                                value: h.external,
                            },
                            reply: Reply::Done,
                        },
                    );
                },
            }
            let at_panic = replay(at_cause, error_from_panic(payload, h)).unwrap();
            lemma_replay_two(
                at_panic,
                Exchange {
                    request: RequestView::CreateString(PANIC@),
                    reply: Reply::Handle(h.panic_key),
                },
                Exchange {
                    request: RequestView::SetProperty {
                        object: h.error,
                        key: h.panic_key,
                        value: h.detail,
                    },
                    reply: Reply::Done,
                },
            );
            assert(replay(at_cause, panic) == Some(settled));
        },
        None => {
            assert(replay(at_cause, panic) == Some(settled));
        },
    }
}

/// Looking for the exception, from the first request on, ends at the first
/// step of the recovery.
proof fn lemma_catch_exception<P>(state: ActivationView<P>, exception: Option<Local>)
    requires
        state.phase == Some(Phase::Probing),
    ensures
        replay((state, RequestView::IsExceptionPending), catch_exception(exception)) == Some(
            match exception {
                Some(thrown) => ActivationView {
                    exception,
                    ..state.at(Phase::Catching)
                }.recover(),
                None => state.recover(),
            },
        ),
{
    let at = (state, RequestView::<P>::IsExceptionPending);
    match exception {
        Some(thrown) => {
            let asked = Exchange::<P> {
                request: RequestView::IsExceptionPending,
                reply: Reply::Pending(true),
            };
            let taken = Exchange::<P> {
                request: RequestView::GetAndClearLastException,
                reply: Reply::Handle(thrown),
            };
            assert(catch_exception::<P>(exception) =~= seq![asked] + seq![taken]);
            lemma_replay_two(at, asked, taken);
        },
        None => {
            lemma_replay_one(
                at,
                Exchange { request: RequestView::IsExceptionPending, reply: Reply::Pending(false) },
            );
        },
    }
}

/// With a live environment, and as long as every operation succeeds, an
/// activation makes the requests of the transcript, one on each reply, and
/// ends when the transcript does: with nothing left to do, or with the
/// process aborted where the failure could go nowhere else.
///
/// So each of the four outcomes has one recovery. A success resolves the
/// promise, if there is one. An exception that came alone rejects the
/// promise as it is. Any other failure, and the lone exception where there
/// is no promise, makes an error with the boundary's message for it, which
/// rejects the promise, or is emitted as an uncaught exception, or, where
/// neither can be done, is not made at all: then the process is aborted.
pub proof fn law_follows_transcript<P>(
    boundary: FailureBoundaryView,
    env: Env,
    deferred: Option<Deferred>,
    outcome: Result<Local, PanicPayloadView<P>>,
    exception: Option<Local>,
    can_emit: bool,
    h: Handles,
)
    requires
        env.raw != 0,
    ensures
        replay(
            begin(boundary, env, deferred, outcome, can_emit),
            transcript(boundary, deferred, outcome, exception, can_emit, h),
        ) matches Some(end) && end.0.finished() && end.1 == conclusion(
            boundary,
            deferred,
            outcome,
            exception,
            can_emit,
        ),
{
    let at = begin(boundary, env, deferred, outcome, can_emit);
    let probe = catch_exception::<P>(exception);
    let whole = transcript(boundary, deferred, outcome, exception, can_emit, h);
    let rest: Seq<Exchange<P>> = match (exception, outcome) {
        (Some(_), Err(payload)) => report(
            boundary.both,
            deferred,
            exception,
            Some(payload),
            can_emit,
            h,
        ),
        (Some(thrown), Ok(_)) => match deferred {
            Some(promise) => reject_deferred(promise, thrown),
            None => report(boundary.exception, deferred, exception, None, can_emit, h),
        },
        (None, Err(payload)) => report(
            boundary.panic,
            deferred,
            exception,
            Some(payload),
            can_emit,
            h,
        ),
        (None, Ok(value)) => match deferred {
            Some(promise) => resolve_deferred(promise, value),
            None => Seq::empty(),
        },
    };
    assert(whole == probe + rest);
    lemma_replay_add(at, probe, rest);
    lemma_catch_exception(at.0, exception);
    let probed = replay(at, probe).unwrap();
    let failed = exception.is_some() || outcome.is_err();
    if failed && !(exception.is_some() && outcome.is_ok() && deferred.is_some()) {
        let text = if outcome.is_ok() {
            boundary.exception
        } else if exception.is_some() {
            boundary.both
        } else {
            boundary.panic
        };
        if deferred.is_some() || can_emit {
            let made = create_error(text, exception, probed.0.panic, h);
            let settled = ActivationView { panic: None, ..probed.0 }.settle(h.error);
            lemma_create_error(probed.0, text, h);
            match deferred {
                Some(promise) => {
                    lemma_replay_add(probed, made, reject_deferred(promise, h.error));
                    lemma_replay_one(
                        settled,
                        Exchange {
                            request: RequestView::RejectDeferred(promise, h.error),
                            reply: Reply::Done,
                        },
                    );
                },
                None => {
                    lemma_replay_add(probed, made, fatal_exception(h.error));
                    lemma_replay_one(
                        settled,
                        Exchange {
                            request: RequestView::FatalException(h.error),
                            reply: Reply::Done,
                        },
                    );
                },
            }
        }
    } else if deferred.is_some() {
        lemma_replay_one(probed, rest[0]);
        assert(rest =~= seq![rest[0]]);
    }
}

/// An exception that came alone goes to the promise as it is: after it has
/// been taken, the one thing asked of the runtime is to reject the promise
/// with it. No error is made and no property set.
pub proof fn law_exception_alone_is_forwarded<P>(
    boundary: FailureBoundaryView,
    env: Env,
    promise: Deferred,
    value: Local,
    thrown: Local,
    can_emit: bool,
)
    requires
        env.raw != 0,
    ensures
        replay(
            begin::<P>(boundary, env, Some(promise), Ok(value), can_emit),
            catch_exception(Some(thrown)) + reject_deferred(promise, thrown),
        ) matches Some(end) && end.0.finished() && end.1 == RequestView::<P>::Return,
{
    let h = Handles {
        message: value,
        error: value,
        cause_key: value,
        panic_message: value,
        detail: value,
        external: value,
        external_key: value,
        panic_key: value,
    };
    law_follows_transcript::<P>(boundary, env, Some(promise), Ok(value), Some(thrown), can_emit, h);
}

/// A panic, with or without an exception, rejects the promise with an error
/// that was made for it: the first string created is the boundary's message
/// for the failure, the first error is made from that string, and that
/// error is what the promise is rejected with, once the exception and the
/// panic have been attached to it.
pub proof fn law_panic_rejects_with_message<P>(
    boundary: FailureBoundaryView,
    env: Env,
    promise: Deferred,
    payload: PanicPayloadView<P>,
    exception: Option<Local>,
    can_emit: bool,
    h: Handles,
)
    requires
        env.raw != 0,
    ensures
        ({
            let text = if exception.is_some() {
                boundary.both
            } else {
                boundary.panic
            };
            let made = create_error(text, exception, Some(payload), h);
            &&& replay(
                begin(boundary, env, Some(promise), Err(payload), can_emit),
                catch_exception(exception) + (made + reject_deferred(promise, h.error)),
            ) matches Some(end) && end.0.finished() && end.1 == RequestView::<P>::Return
            &&& made[0] == Exchange::<P> {
                request: RequestView::CreateString(text),
                reply: Reply::Handle(h.message),
            }
            &&& made[1] == Exchange::<P> {
                request: RequestView::CreateError(h.message),
                reply: Reply::Handle(h.error),
            }
        }),
{
    law_follows_transcript(boundary, env, Some(promise), Err(payload), exception, can_emit, h);
}

/// Where there is no promise and the runtime cannot emit an uncaught
/// exception, every failure aborts the process once the exception has been
/// looked for: with the panic's own message if it has one, and with the
/// boundary's message for the failure otherwise. Nothing else is asked of
/// the runtime.
pub proof fn law_failure_without_remedy_aborts<P>(
    boundary: FailureBoundaryView,
    env: Env,
    outcome: Result<Local, PanicPayloadView<P>>,
    exception: Option<Local>,
)
    requires
        env.raw != 0,
        exception.is_some() || outcome.is_err(),
    ensures
        replay(begin(boundary, env, None, outcome, false), catch_exception(exception))
            matches Some(end) && end.0.finished() && end.1 == RequestView::<P>::FatalError(
            match outcome {
                Err(PanicPayloadView::Message(text)) => text,
                Err(PanicPayloadView::Opaque(_)) => if exception.is_some() {
                    boundary.both
                } else {
                    boundary.panic
                },
                Ok(_) => boundary.exception,
            },
        ),
{
    let h = Handles {
        message: Local { raw: 0 },
        error: Local { raw: 0 },
        cause_key: Local { raw: 0 },
        panic_message: Local { raw: 0 },
        detail: Local { raw: 0 },
        external: Local { raw: 0 },
        external_key: Local { raw: 0 },
        panic_key: Local { raw: 0 },
    };
    law_follows_transcript(boundary, env, None, outcome, exception, false, h);
    assert(transcript(boundary, None, outcome, exception, false, h) =~= catch_exception(
        exception,
    ));
}

/// Once the event loop has terminated nothing is asked of the runtime: a
/// panic aborts the process, with its message or with the message that
/// stands for an unknown panic, and a value is the end. The promise is not
/// settled.
pub proof fn law_without_environment<P>(
    boundary: FailureBoundaryView,
    env: Env,
    deferred: Option<Deferred>,
    outcome: Result<Local, PanicPayloadView<P>>,
    can_emit: bool,
)
    requires
        env.raw == 0,
    ensures
        ({
            let at = begin(boundary, env, deferred, outcome, can_emit);
            &&& at.0.finished()
            &&& at.0.deferred == deferred
            &&& at.1 == match outcome {
                Ok(_) => RequestView::<P>::Return,
                Err(PanicPayloadView::Message(text)) => RequestView::FatalError(text),
                Err(PanicPayloadView::Opaque(_)) => RequestView::FatalError(
                    UNKNOWN_PANIC_MESSAGE@,
                ),
            }
        }),
{
}

/// An activation begins with a state and a request that belong together,
/// and every step keeps them so. The request is the one whose reply the
/// state awaits and whose failure it will report; and nothing is left to do
/// exactly when the request is the end or the abort.
pub proof fn law_paired<P>(
    boundary: FailureBoundaryView,
    env: Env,
    deferred: Option<Deferred>,
    outcome: Result<Local, PanicPayloadView<P>>,
    can_emit: bool,
    replies: Seq<Reply>,
)
    ensures
        ({
            let at = run(begin(boundary, env, deferred, outcome, can_emit), replies);
            &&& paired(at)
            &&& at.0.finished() <==> at.1 is Return || at.1 is FatalError
            &&& at.0.phase matches Some(phase) ==> phase.spec_diagnostic() == at.1.diagnostic()
        }),
    decreases replies.len(),
{
    let at = begin(boundary, env, deferred, outcome, can_emit);
    if replies.len() > 0 {
        law_paired(boundary, env, deferred, outcome, can_emit, replies.drop_last());
        lemma_step_keeps_paired(run(at, replies.drop_last()), replies.last());
    }
}

/// A step keeps the state and the request together.
proof fn lemma_step_keeps_paired<P>(at: (ActivationView<P>, RequestView<P>), reply: Reply)
    requires
        paired(at),
    ensures
        paired(at.0.next(reply)),
{
}

/// An operation that fails aborts the process, with the diagnostic of the
/// request that failed: whenever the reply is not the one that answers the
/// pending request with success, the next request is the abort, and nothing
/// is left to do after it.
pub proof fn law_failed_operation_aborts<P>(
    boundary: FailureBoundaryView,
    env: Env,
    deferred: Option<Deferred>,
    outcome: Result<Local, PanicPayloadView<P>>,
    can_emit: bool,
    replies: Seq<Reply>,
    reply: Reply,
)
    requires
        ({
            let at = run(begin(boundary, env, deferred, outcome, can_emit), replies);
            !at.0.finished() && !at.1.answered_by(reply)
        }),
    ensures
        ({
            let at = run(begin(boundary, env, deferred, outcome, can_emit), replies);
            at.0.next(reply) == (at.0.end(), RequestView::<P>::FatalError(at.1.diagnostic()))
        }),
{
    law_paired(boundary, env, deferred, outcome, can_emit, replies);
}

/// Every activation comes to an end: each reply brings it closer, and after
/// fourteen replies at the latest, whatever they are, nothing is left to
/// do. From then on nothing more is asked for.
pub proof fn law_reaches_end<P>(at: (ActivationView<P>, RequestView<P>), replies: Seq<Reply>)
    ensures
        run(at, replies).0.rank() + replies.len() <= at.0.rank() || run(at, replies).0.finished(),
        at.0.rank() <= 14,
        replies.len() >= 14 ==> run(at, replies).0.finished(),
        replies.len() > 0 && run(at, replies.drop_last()).0.finished() ==> run(at, replies) == (
            run(at, replies.drop_last()).0,
            RequestView::<P>::Return,
        ),
    decreases replies.len(),
{
    if replies.len() > 0 {
        law_reaches_end(at, replies.drop_last());
    }
}

/// A run settles at most once: among all its requests there is at most one
/// that resolves the promise, rejects it or emits an uncaught exception,
/// and after that one the run can only end.
pub proof fn law_settles_at_most_once<P>(
    boundary: FailureBoundaryView,
    env: Env,
    deferred: Option<Deferred>,
    outcome: Result<Local, PanicPayloadView<P>>,
    can_emit: bool,
    replies: Seq<Reply>,
)
    ensures
        ({
            let at = begin(boundary, env, deferred, outcome, can_emit);
            &&& settlements(at, replies) <= 1
            &&& settlements(at, replies) == 1 ==> run(at, replies).0.rank() <= 1
        }),
    decreases replies.len(),
{
    let at = begin(boundary, env, deferred, outcome, can_emit);
    law_paired(boundary, env, deferred, outcome, can_emit, replies);
    if replies.len() > 0 {
        law_settles_at_most_once(boundary, env, deferred, outcome, can_emit, replies.drop_last());
        law_paired(boundary, env, deferred, outcome, can_emit, replies.drop_last());
    }
}

/// The activation keeps the promise that it began with until it settles,
/// and settles with nothing made up: a request that resolves or rejects
/// carries that promise, and a request that emits is only made where there
/// was no promise and the runtime can emit.
pub proof fn law_settles_what_was_given<P>(
    boundary: FailureBoundaryView,
    env: Env,
    deferred: Option<Deferred>,
    outcome: Result<Local, PanicPayloadView<P>>,
    can_emit: bool,
    replies: Seq<Reply>,
)
    ensures
        ({
            let at = run(begin(boundary, env, deferred, outcome, can_emit), replies);
            &&& (at.0.phase matches Some(phase) && !phase.settling()) ==> at.0.deferred == deferred
            &&& at.0.can_emit == can_emit
            &&& at.1 matches RequestView::ResolveDeferred(promise, _) ==> deferred == Some(promise)
            &&& at.1 matches RequestView::RejectDeferred(promise, _) ==> deferred == Some(promise)
            &&& at.1 is FatalException ==> can_emit && deferred.is_none()
        }),
    decreases replies.len(),
{
    law_paired(boundary, env, deferred, outcome, can_emit, replies);
    if replies.len() > 0 {
        law_settles_what_was_given(boundary, env, deferred, outcome, can_emit, replies.drop_last());
        law_paired(boundary, env, deferred, outcome, can_emit, replies.drop_last());
    }
}

/// The recovery is the least severe that is at hand. A success never
/// rejects, emits or aborts. Where a promise waits, every outcome goes to
/// the promise. Without one, a failure is emitted wherever the runtime can
/// emit, and the process is aborted only where it cannot.
pub proof fn law_least_severe_remedy(
    has_deferred: bool,
    exception: Option<Local>,
    returned: Option<Local>,
    can_emit: bool,
)
    ensures
        ({
            let chosen = recovery(has_deferred, exception, returned, can_emit);
            let failed = exception.is_some() || returned.is_none();
            &&& chosen is Resolve || chosen is Complete <==> !failed
            &&& chosen is Resolve || chosen is Forward || chosen is Reject <==> has_deferred
            &&& chosen is Emit <==> failed && !has_deferred && can_emit
            &&& chosen is Abort <==> failed && !has_deferred && !can_emit
            &&& chosen is Forward <==> has_deferred && exception.is_some() && returned.is_some()
            &&& chosen matches Recovery::Resolve(value) ==> returned == Some(value)
            &&& chosen matches Recovery::Forward(thrown) ==> exception == Some(thrown)
            &&& chosen matches Recovery::Reject(failure) ==> failure_of(exception, returned)
                == Some(failure)
            &&& chosen matches Recovery::Emit(failure) ==> failure_of(exception, returned) == Some(
                failure,
            )
            &&& chosen matches Recovery::Abort(failure) ==> failure_of(exception, returned)
                == Some(failure)
        }),
{
}

} // verus!
