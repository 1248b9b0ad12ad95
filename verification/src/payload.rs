//! What a captured panic carries.
use vstd::prelude::*;
use crate::handle::Local;

verus! {

/// The message that stands for a panic whose payload holds no text.
pub const UNKNOWN_PANIC_MESSAGE: &'static str = "Unknown panic";

/// The payload of a captured panic, classified once, when it is captured:
/// either the text it was raised with, or a value of some other type, which
/// is kept as it is so that the host can still hold on to it.
#[derive(Debug, PartialEq, Eq)]
pub enum PanicPayload<P> {
    Message(String),
    Opaque(P),
}

/// The mathematical value of a [`PanicPayload`].
pub enum PanicPayloadView<P> {
    Message(Seq<char>),
    Opaque(P),
}

impl<P> PanicPayloadView<P> {
    /// The text of the payload, if it holds one.
    pub open spec fn message(self) -> Option<Seq<char>> {
        match self {
            PanicPayloadView::Message(text) => Some(text),
            PanicPayloadView::Opaque(_) => None,
        }
    }

    /// The text that reports this panic where nothing but text can be
    /// reported.
    pub open spec fn message_or_unknown(self) -> Seq<char> {
        match self {
            PanicPayloadView::Message(text) => text,
            PanicPayloadView::Opaque(_) => UNKNOWN_PANIC_MESSAGE@,
        }
    }
}

impl<P> View for PanicPayload<P> {
    type V = PanicPayloadView<P>;

    open spec fn view(&self) -> PanicPayloadView<P> {
        match self {
            PanicPayload::Message(text) => PanicPayloadView::Message(text@),
            PanicPayload::Opaque(value) => PanicPayloadView::Opaque(*value),
        }
    }
}

/// The mathematical value of the outcome of a unit of work: the value that
/// it returned, or the payload that it panicked with.
pub open spec fn outcome_view<P>(outcome: Result<Local, PanicPayload<P>>) -> Result<
    Local,
    PanicPayloadView<P>,
> {
    match outcome {
        Ok(value) => Ok(value),
        Err(payload) => Err(payload@),
    }
}

/// The message of a panic: the text of the payload if it holds one, and
/// nothing for any other payload.
pub fn panic_msg<P>(panic: &PanicPayload<P>) -> (msg: Option<&str>)
    ensures
        msg.is_some() == panic@.message().is_some(),
        msg matches Some(text) ==> Some(text@) == panic@.message(),
{
    match panic {
        PanicPayload::Message(text) => Some(text.as_str()),
        PanicPayload::Opaque(_) => None,
    }
}

} // verus!
