use failure_boundary::activation::Activation;
use failure_boundary::boundary::FailureBoundary;
use failure_boundary::handle::{Deferred, Env, Local};
use failure_boundary::payload::PanicPayload;
use failure_boundary::protocol::{Reply, Request};

const BOUNDARY: FailureBoundary = FailureBoundary {
    both: "A panic and exception occurred while executing a callback",
    exception: "An exception occurred while executing a callback",
    panic: "A panic occurred while executing a callback",
};

const ENV: Env = Env { raw: 0x1000 };

const NULL: Env = Env { raw: 0 };

/// A payload that is no text.
#[derive(Debug, PartialEq, Eq)]
struct CustomPanic(String);

/// What a handle of the model runtime refers to.
#[derive(Debug, PartialEq, Eq)]
enum Value {
    Number(i64),
    Text(String),
    Error { message: String, properties: Vec<(String, Local)> },
    External(CustomPanic),
}

/// A runtime that keeps its values in a vector and records what was done to
/// it. Operation number `fail_at`, counted from 0, fails.
struct Runtime {
    heap: Vec<Value>,
    pending: Option<Local>,
    fail_at: Option<usize>,
    operations: usize,
    resolved: Vec<(Deferred, Local)>,
    rejected: Vec<(Deferred, Local)>,
    emitted: Vec<Local>,
    aborted: Option<String>,
}

impl Runtime {
    fn new() -> Runtime {
        Runtime {
            heap: Vec::new(),
            pending: None,
            fail_at: None,
            operations: 0,
            resolved: Vec::new(),
            rejected: Vec::new(),
            emitted: Vec::new(),
            aborted: None,
        }
    }

    fn store(&mut self, value: Value) -> Local {
        self.heap.push(value);
        Local { raw: self.heap.len() }
    }

    fn get(&self, handle: Local) -> &Value {
        &self.heap[handle.raw - 1]
    }

    fn text(&self, handle: Local) -> String {
        match self.get(handle) {
            Value::Text(text) => text.clone(),
            other => panic!("not a string: {:?}", other),
        }
    }

    fn message(&self, handle: Local) -> String {
        match self.get(handle) {
            Value::Error { message, .. } => message.clone(),
            other => panic!("not an error: {:?}", other),
        }
    }

    fn properties(&self, handle: Local) -> Vec<(String, Local)> {
        match self.get(handle) {
            Value::Error { properties, .. } => properties.clone(),
            other => panic!("not an error: {:?}", other),
        }
    }

    fn property(&self, handle: Local, name: &str) -> Local {
        let found: Vec<Local> = self
            .properties(handle)
            .into_iter()
            .filter(|(key, _)| key == name)
            .map(|(_, value)| value)
            .collect();
        assert_eq!(found.len(), 1);
        found[0]
    }

    fn settlements(&self) -> usize {
        self.resolved.len() + self.rejected.len() + self.emitted.len()
    }

    /// Performs one request. Returns `None` where the request ends the run.
    fn perform(&mut self, request: Request<CustomPanic>) -> Option<Reply> {
        match request {
            Request::Return => return None,
            Request::FatalError(message) => {
                assert!(self.aborted.is_none());
                self.aborted = Some(message);
                return None;
            }
            _ => {}
        }
        let number = self.operations;
        self.operations += 1;
        if self.fail_at == Some(number) {
            return Some(Reply::Failed);
        }
        Some(match request {
            Request::IsExceptionPending => Reply::Pending(self.pending.is_some()),
            Request::GetAndClearLastException => match self.pending.take() {
                Some(thrown) => Reply::Handle(thrown),
                None => Reply::Failed,
            },
            Request::CreateString(text) => Reply::Handle(self.store(Value::Text(text))),
            Request::CreateError(message) => {
                let message = self.text(message);
                Reply::Handle(self.store(Value::Error { message, properties: Vec::new() }))
            }
            Request::CreateExternal(payload) => Reply::Handle(self.store(Value::External(payload))),
            Request::SetProperty { object, key, value } => {
                let key = self.text(key);
                match &mut self.heap[object.raw - 1] {
                    Value::Error { properties, .. } => properties.push((key, value)),
                    other => panic!("not an object: {:?}", other),
                }
                Reply::Done
            }
            Request::ResolveDeferred(deferred, value) => {
                self.resolved.push((deferred, value));
                Reply::Done
            }
            Request::RejectDeferred(deferred, value) => {
                self.rejected.push((deferred, value));
                Reply::Done
            }
            Request::FatalException(error) => {
                self.emitted.push(error);
                Reply::Done
            }
            Request::FatalError(_) | Request::Return => unreachable!(),
        })
    }
}

/// Runs one activation to its end on the model runtime, and returns the
/// number of replies that it took.
fn run(
    runtime: &mut Runtime,
    env: Env,
    deferred: Option<Deferred>,
    outcome: Result<Local, PanicPayload<CustomPanic>>,
    can_emit: bool,
) -> usize {
    let (mut activation, mut request): (Activation<CustomPanic>, _) =
        BOUNDARY.catch_failure(env, deferred, outcome, can_emit);
    let mut replies = 0;
    loop {
        match runtime.perform(request) {
            Some(reply) => {
                request = activation.step(reply);
                replies += 1;
            }
            None => {
                assert!(activation.is_finished());
                return replies;
            }
        }
    }
}

fn boom() -> PanicPayload<CustomPanic> {
    PanicPayload::Message(String::from("boom"))
}

fn custom() -> PanicPayload<CustomPanic> {
    PanicPayload::Opaque(CustomPanic(String::from("custom")))
}

#[test]
fn panic_without_promise_or_emission_aborts_with_its_message() {
    let mut runtime = Runtime::new();
    let replies = run(&mut runtime, ENV, None, Err(boom()), false);
    let diagnostic = runtime.aborted.clone().unwrap();
    assert!(diagnostic.contains("boom"));
    assert_eq!(diagnostic, "boom");
    assert_eq!(replies, 1);
    assert_eq!(runtime.settlements(), 0);
    assert!(runtime.heap.is_empty());
}

#[test]
fn thrown_exception_rejects_the_promise_with_the_thrown_value() {
    let mut runtime = Runtime::new();
    let thrown = runtime.store(Value::Error {
        message: String::from("thrown by the host"),
        properties: Vec::new(),
    });
    let undefined = runtime.store(Value::Number(0));
    runtime.pending = Some(thrown);
    let values = runtime.heap.len();
    run(&mut runtime, ENV, Some(Deferred { raw: 7 }), Ok(undefined), true);
    assert_eq!(runtime.rejected, vec![(Deferred { raw: 7 }, thrown)]);
    assert_eq!(runtime.settlements(), 1);
    assert_eq!(runtime.aborted, None);
    assert_eq!(runtime.pending, None);
    // Nothing was made and nothing attached.
    assert_eq!(runtime.heap.len(), values);
    assert!(runtime.properties(thrown).is_empty());
    assert_eq!(runtime.message(thrown), "thrown by the host");
}

#[test]
fn returned_value_resolves_the_promise() {
    let mut runtime = Runtime::new();
    let value = runtime.store(Value::Number(42));
    let replies = run(&mut runtime, ENV, Some(Deferred { raw: 9 }), Ok(value), false);
    assert_eq!(runtime.resolved, vec![(Deferred { raw: 9 }, value)]);
    assert_eq!(runtime.get(runtime.resolved[0].1), &Value::Number(42));
    assert_eq!(runtime.settlements(), 1);
    assert_eq!(runtime.aborted, None);
    assert_eq!(replies, 2);
}

#[test]
fn returned_value_without_promise_does_nothing() {
    let mut runtime = Runtime::new();
    let value = runtime.store(Value::Number(42));
    let replies = run(&mut runtime, ENV, None, Ok(value), true);
    assert_eq!(runtime.settlements(), 0);
    assert_eq!(runtime.aborted, None);
    assert_eq!(runtime.heap.len(), 1);
    assert_eq!(replies, 1);
}

#[test]
fn panic_rejects_the_promise_with_an_error_of_the_panic_message() {
    let mut runtime = Runtime::new();
    let replies = run(&mut runtime, ENV, Some(Deferred { raw: 3 }), Err(boom()), false);
    assert_eq!(runtime.rejected.len(), 1);
    assert_eq!(runtime.settlements(), 1);
    assert_eq!(runtime.aborted, None);
    let (deferred, error) = (&runtime.rejected[0].0, runtime.rejected[0].1);
    assert_eq!(deferred, &Deferred { raw: 3 });
    assert_eq!(runtime.message(error), BOUNDARY.panic);
    assert_eq!(runtime.properties(error).len(), 1);
    let detail = runtime.property(error, "panic");
    assert_eq!(runtime.message(detail), "boom");
    assert!(runtime.properties(detail).is_empty());
    assert_eq!(replies, 8);
}

#[test]
fn panic_and_exception_reject_the_promise_with_both_attached() {
    let mut runtime = Runtime::new();
    let thrown = runtime.store(Value::Number(13));
    runtime.pending = Some(thrown);
    let replies = run(&mut runtime, ENV, Some(Deferred { raw: 3 }), Err(boom()), true);
    assert_eq!(runtime.rejected.len(), 1);
    assert_eq!(runtime.settlements(), 1);
    let error = runtime.rejected[0].1;
    assert_eq!(runtime.message(error), BOUNDARY.both);
    assert_eq!(runtime.properties(error).len(), 2);
    assert_eq!(runtime.property(error, "cause"), thrown);
    let detail = runtime.property(error, "panic");
    assert_eq!(runtime.message(detail), "boom");
    assert_eq!(runtime.pending, None);
    assert_eq!(replies, 11);
}

#[test]
fn payload_without_text_is_boxed_as_the_cause_of_the_panic() {
    let mut runtime = Runtime::new();
    let thrown = runtime.store(Value::Number(13));
    runtime.pending = Some(thrown);
    let replies = run(&mut runtime, ENV, Some(Deferred { raw: 3 }), Err(custom()), true);
    assert_eq!(runtime.rejected.len(), 1);
    let error = runtime.rejected[0].1;
    assert_eq!(runtime.message(error), BOUNDARY.both);
    assert_eq!(runtime.property(error, "cause"), thrown);
    let detail = runtime.property(error, "panic");
    assert_eq!(runtime.message(detail), "Unknown panic");
    assert_eq!(runtime.properties(detail).len(), 1);
    let external = runtime.property(detail, "cause");
    assert_eq!(
        runtime.get(external),
        &Value::External(CustomPanic(String::from("custom")))
    );
    // The longest run there is.
    assert_eq!(replies, 14);
}

#[test]
fn exception_without_promise_is_emitted_wrapped() {
    let mut runtime = Runtime::new();
    let thrown = runtime.store(Value::Number(13));
    let undefined = runtime.store(Value::Number(0));
    runtime.pending = Some(thrown);
    run(&mut runtime, ENV, None, Ok(undefined), true);
    assert_eq!(runtime.emitted.len(), 1);
    assert_eq!(runtime.settlements(), 1);
    assert_eq!(runtime.aborted, None);
    let error = runtime.emitted[0];
    assert_eq!(runtime.message(error), BOUNDARY.exception);
    assert_eq!(runtime.properties(error), vec![(String::from("cause"), thrown)]);
}

#[test]
fn panic_without_promise_is_emitted() {
    let mut runtime = Runtime::new();
    run(&mut runtime, ENV, None, Err(boom()), true);
    assert_eq!(runtime.emitted.len(), 1);
    assert_eq!(runtime.settlements(), 1);
    let error = runtime.emitted[0];
    assert_eq!(runtime.message(error), BOUNDARY.panic);
    let detail = runtime.property(error, "panic");
    assert_eq!(runtime.message(detail), "boom");
}

#[test]
fn failure_without_promise_or_emission_aborts() {
    // An exception alone: the boundary's message for it.
    let mut runtime = Runtime::new();
    let thrown = runtime.store(Value::Number(13));
    let undefined = runtime.store(Value::Number(0));
    runtime.pending = Some(thrown);
    run(&mut runtime, ENV, None, Ok(undefined), false);
    assert_eq!(runtime.aborted.as_deref(), Some(BOUNDARY.exception));
    assert_eq!(runtime.settlements(), 0);

    // A panic without text: the boundary's message for a panic.
    let mut runtime = Runtime::new();
    run(&mut runtime, ENV, None, Err(custom()), false);
    assert_eq!(runtime.aborted.as_deref(), Some(BOUNDARY.panic));

    // A panic without text and an exception: the message for both.
    let mut runtime = Runtime::new();
    let thrown = runtime.store(Value::Number(13));
    runtime.pending = Some(thrown);
    run(&mut runtime, ENV, None, Err(custom()), false);
    assert_eq!(runtime.aborted.as_deref(), Some(BOUNDARY.both));

    // A panic with text and an exception: the panic's own message.
    let mut runtime = Runtime::new();
    let thrown = runtime.store(Value::Number(13));
    runtime.pending = Some(thrown);
    run(&mut runtime, ENV, None, Err(boom()), false);
    assert_eq!(runtime.aborted.as_deref(), Some("boom"));
    assert_eq!(runtime.settlements(), 0);
}

#[test]
fn without_environment_a_panic_aborts_and_a_value_ends() {
    let mut runtime = Runtime::new();
    let replies = run(&mut runtime, NULL, Some(Deferred { raw: 1 }), Err(boom()), true);
    assert_eq!(runtime.aborted.as_deref(), Some("boom"));
    assert_eq!((replies, runtime.operations, runtime.settlements()), (0, 0, 0));

    let mut runtime = Runtime::new();
    run(&mut runtime, NULL, None, Err(custom()), true);
    assert_eq!(runtime.aborted.as_deref(), Some("Unknown panic"));
    assert_eq!((runtime.operations, runtime.settlements()), (0, 0));

    let mut runtime = Runtime::new();
    let replies = run(&mut runtime, NULL, Some(Deferred { raw: 1 }), Ok(Local { raw: 5 }), true);
    assert_eq!(runtime.aborted, None);
    assert_eq!((replies, runtime.operations, runtime.settlements()), (0, 0, 0));
}

#[test]
fn first_requests_are_exact() {
    let (activation, request): (Activation<CustomPanic>, _) =
        BOUNDARY.catch_failure(ENV, None, Ok(Local { raw: 5 }), true);
    assert!(!activation.is_finished());
    assert_eq!(request, Request::IsExceptionPending);

    let (activation, request): (Activation<CustomPanic>, _) =
        BOUNDARY.catch_failure(NULL, None, Ok(Local { raw: 5 }), true);
    assert!(activation.is_finished());
    assert_eq!(request, Request::Return);

    let (activation, request) = BOUNDARY.catch_failure(NULL, None, Err(boom()), true);
    assert!(activation.is_finished());
    assert_eq!(request, Request::FatalError(String::from("boom")));
}

#[test]
fn requests_follow_the_replies_step_by_step() {
    let thrown = Local { raw: 21 };
    let (mut activation, request) =
        BOUNDARY.catch_failure(ENV, Some(Deferred { raw: 4 }), Err(custom()), false);
    assert_eq!(request, Request::IsExceptionPending);
    assert_eq!(activation.step(Reply::Pending(true)), Request::GetAndClearLastException);
    assert_eq!(
        activation.step(Reply::Handle(thrown)),
        Request::CreateString(String::from(BOUNDARY.both))
    );
    assert_eq!(activation.step(Reply::Handle(Local { raw: 31 })), Request::CreateError(Local { raw: 31 }));
    assert_eq!(
        activation.step(Reply::Handle(Local { raw: 32 })),
        Request::CreateString(String::from("cause"))
    );
    assert_eq!(
        activation.step(Reply::Handle(Local { raw: 33 })),
        Request::SetProperty { object: Local { raw: 32 }, key: Local { raw: 33 }, value: thrown }
    );
    assert_eq!(
        activation.step(Reply::Done),
        Request::CreateString(String::from("Unknown panic"))
    );
    assert_eq!(activation.step(Reply::Handle(Local { raw: 34 })), Request::CreateError(Local { raw: 34 }));
    assert_eq!(
        activation.step(Reply::Handle(Local { raw: 35 })),
        Request::CreateExternal(CustomPanic(String::from("custom")))
    );
    assert_eq!(
        activation.step(Reply::Handle(Local { raw: 36 })),
        Request::CreateString(String::from("cause"))
    );
    assert_eq!(
        activation.step(Reply::Handle(Local { raw: 37 })),
        Request::SetProperty {
            object: Local { raw: 35 },
            key: Local { raw: 37 },
            value: Local { raw: 36 }
        }
    );
    assert_eq!(activation.step(Reply::Done), Request::CreateString(String::from("panic")));
    assert_eq!(
        activation.step(Reply::Handle(Local { raw: 38 })),
        Request::SetProperty {
            object: Local { raw: 32 },
            key: Local { raw: 38 },
            value: Local { raw: 35 }
        }
    );
    assert!(!activation.is_finished());
    assert_eq!(
        activation.step(Reply::Done),
        Request::RejectDeferred(Deferred { raw: 4 }, Local { raw: 32 })
    );
    assert!(!activation.is_finished());
    assert_eq!(activation.step(Reply::Done), Request::Return);
    assert!(activation.is_finished());
    // Nothing more is asked for, whatever comes.
    assert_eq!(activation.step(Reply::Done), Request::Return);
    assert_eq!(activation.step(Reply::Failed), Request::Return);
    assert!(activation.is_finished());
}

/// The diagnostic with which a run aborts when operation `fail_at` fails.
fn diagnostic_of_failure(
    fail_at: usize,
    deferred: Option<Deferred>,
    outcome: Result<Local, PanicPayload<CustomPanic>>,
    throwing: bool,
) -> String {
    let mut runtime = Runtime::new();
    if throwing {
        let thrown = runtime.store(Value::Number(13));
        runtime.pending = Some(thrown);
    }
    runtime.fail_at = Some(fail_at);
    run(&mut runtime, ENV, deferred, outcome, true);
    assert_eq!(runtime.operations, fail_at + 1);
    assert_eq!(runtime.settlements(), 0);
    runtime.aborted.unwrap()
}

#[test]
fn every_failed_operation_aborts_with_its_diagnostic() {
    let expected = [
        "Failed to check if an exception is pending",
        "Failed to get and clear the last exception",
        "Failed to create a String",
        "Failed to create an Error",
        "Failed to create a String",
        "Failed to set an object property",
        "Failed to create a String",
        "Failed to create an Error",
        "Failed to create a neon::types::JsBox from a panic",
        "Failed to create a String",
        "Failed to set an object property",
        "Failed to create a String",
        "Failed to set an object property",
    ];
    for (fail_at, diagnostic) in expected.iter().enumerate() {
        assert_eq!(
            &diagnostic_of_failure(fail_at, Some(Deferred { raw: 2 }), Err(custom()), true),
            diagnostic
        );
    }
}

#[test]
fn failed_settlement_aborts() {
    let mut runtime = Runtime::new();
    runtime.fail_at = Some(1);
    run(&mut runtime, ENV, Some(Deferred { raw: 2 }), Ok(Local { raw: 1 }), true);
    assert_eq!(runtime.aborted.as_deref(), Some("Failed to resolve promise"));
    assert_eq!(runtime.settlements(), 0);

    let mut runtime = Runtime::new();
    let thrown = runtime.store(Value::Number(13));
    runtime.pending = Some(thrown);
    runtime.fail_at = Some(2);
    run(&mut runtime, ENV, Some(Deferred { raw: 2 }), Ok(Local { raw: 1 }), true);
    assert_eq!(runtime.aborted.as_deref(), Some("Failed to reject promise"));

    let mut runtime = Runtime::new();
    runtime.fail_at = Some(7);
    run(&mut runtime, ENV, Some(Deferred { raw: 2 }), Err(boom()), true);
    assert_eq!(runtime.aborted.as_deref(), Some("Failed to reject promise"));

    let mut runtime = Runtime::new();
    runtime.fail_at = Some(7);
    run(&mut runtime, ENV, None, Err(boom()), true);
    assert_eq!(runtime.aborted.as_deref(), Some("Failed to throw an uncaughtException"));
    assert_eq!(runtime.settlements(), 0);
}

#[test]
fn reply_of_the_wrong_form_counts_as_failure() {
    let (mut activation, _): (Activation<CustomPanic>, _) =
        BOUNDARY.catch_failure(ENV, None, Ok(Local { raw: 5 }), true);
    assert_eq!(
        activation.step(Reply::Done),
        Request::FatalError(String::from("Failed to check if an exception is pending"))
    );
    assert!(activation.is_finished());

    let (mut activation, _) = BOUNDARY.catch_failure(ENV, None, Err(boom()), true);
    assert_eq!(
        activation.step(Reply::Pending(false)),
        Request::CreateString(String::from(BOUNDARY.panic))
    );
    assert_eq!(
        activation.step(Reply::Pending(true)),
        Request::FatalError(String::from("Failed to create a String"))
    );
    assert_eq!(activation.step(Reply::Handle(Local { raw: 1 })), Request::Return);
}

#[test]
fn every_run_ends_within_fourteen_replies_and_settles_at_most_once() {
    let replies = [
        Reply::Pending(true),
        Reply::Pending(false),
        Reply::Handle(Local { raw: 77 }),
        Reply::Done,
        Reply::Failed,
    ];
    // Every sequence of three replies, continued by the replies that succeed.
    for first in replies.iter() {
        for second in replies.iter() {
            for third in replies.iter() {
                for case in 0..8 {
                    let deferred = if case & 1 == 0 { None } else { Some(Deferred { raw: 6 }) };
                    let outcome = if case & 2 == 0 { Ok(Local { raw: 1 }) } else { Err(custom()) };
                    let can_emit = case & 4 != 0;
                    let (mut activation, mut request) =
                        BOUNDARY.catch_failure(ENV, deferred, outcome, can_emit);
                    let script = [*first, *second, *third];
                    let mut taken = 0;
                    let mut settled = 0;
                    let mut aborted = 0;
                    loop {
                        let reply = match &request {
                            Request::Return => break,
                            Request::FatalError(_) => {
                                aborted += 1;
                                break;
                            }
                            Request::ResolveDeferred(promise, _)
                            | Request::RejectDeferred(promise, _) => {
                                assert_eq!(promise, &Deferred { raw: 6 });
                                settled += 1;
                                Reply::Done
                            }
                            Request::FatalException(_) => {
                                assert!(can_emit && case & 1 == 0);
                                settled += 1;
                                Reply::Done
                            }
                            Request::IsExceptionPending => Reply::Pending(false),
                            Request::SetProperty { .. } => Reply::Done,
                            _ => Reply::Handle(Local { raw: 50 + taken }),
                        };
                        let reply = if taken < 3 && !request_settles(&request) {
                            script[taken]
                        } else {
                            reply
                        };
                        request = activation.step(reply);
                        taken += 1;
                        assert!(taken <= 14);
                    }
                    assert!(activation.is_finished());
                    assert!(settled <= 1);
                    assert!(aborted <= 1);
                }
            }
        }
    }
}

fn request_settles(request: &Request<CustomPanic>) -> bool {
    matches!(
        request,
        Request::ResolveDeferred(_, _) | Request::RejectDeferred(_, _) | Request::FatalException(_)
    )
}
