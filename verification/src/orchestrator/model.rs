//! The orchestrator as a state machine over mathematical values: its
//! states, the events it is told of, the actions it asks for, and the
//! function that leads from one state to the next.

use vstd::prelude::*;
use crate::engine::reinsert::{reinserted, with_items};
use crate::engine::slot::{complete, slots_of, texts_of};
use crate::text::blank;
use crate::utils::CurlErr;
use crate::wa::json::UnknownType;
use crate::wa::view::ResponseView;
use crate::wlt::WLTErr;

verus! {

/// How many times a failed call is tried again, beyond the first attempt.
#[derive(Debug, Clone, Copy, PartialEq, Eq, Structural)]
pub struct Retries {
    /// For a call of the translation service.
    pub wlt: usize,
    /// For a message sent to the assistant.
    pub wa: usize,
}

/// Where a request stands.
#[derive(Debug, Clone, Copy, PartialEq, Eq, Structural)]
pub enum Stage {
    /// The message is being translated into the assistant's language.
    TranslateInbound,
    /// A session with the assistant is being established.
    EstablishSession,
    /// The message is being sent to the assistant.
    SendToAssistant,
    /// The texts of the assistant's response are being translated into the
    /// user's language.
    TranslateOutbound,
    /// The request is over and its result can be emitted.
    Emit,
}

/// View of a request.
pub ghost struct RequestView {
    pub context: Option<UnknownType>,
    pub session_id: Option<Seq<char>>,
    pub message: Seq<char>,
    pub source_lang: Seq<char>,
    pub target_lang: Seq<char>,
}

/// A state of the orchestrator.
pub ghost struct Machine {
    pub retries: Retries,
    pub stage: Stage,
    /// The number of failed attempts in the present stage.
    pub attempt: nat,
    /// The message as it stands: the user's, or its translation.
    pub message: Seq<char>,
    /// The user's language.
    pub source: Seq<char>,
    /// The assistant's language.
    pub target: Seq<char>,
    pub context: Option<UnknownType>,
    /// The session that the request asked to go on with, if any.
    pub requested_session: Option<Seq<char>>,
    /// The session in use, once there is one.
    pub session: Option<Seq<char>>,
    /// The assistant's response, once there is one, with whatever
    /// translation has been written into it.
    pub answer: Option<ResponseView>,
}

/// What the orchestrator is told of.
pub ghost enum Occurrence {
    /// A call of the translation service ended: with the translated texts,
    /// in order, or with a failure.
    Translated(Result<Seq<Seq<char>>, WLTErr>),
    /// A session is at hand, with this identifier.
    SessionOpened(Seq<char>),
    /// No session could be had.
    SessionFailed(CurlErr),
    /// A message to the assistant ended: with its response, or with a
    /// failure.
    Answered(Result<ResponseView, CurlErr>),
}

/// What the orchestrator asks for.
pub ghost enum Request {
    /// Translate these texts from `source` to `target`.
    Translate { text: Seq<Seq<char>>, source: Seq<char>, target: Seq<char> },
    /// Go on with the session named, without asking the assistant.
    Reattach { session_id: Seq<char> },
    /// Create a session with the assistant.
    CreateSession,
    /// Send this message to the assistant, with this context if any.
    Send { message: Seq<char>, context: Option<UnknownType> },
    /// Emit the result.
    Emit,
}

/// How a request ends.
pub ghost enum Verdict {
    /// With the assistant's response, in the session named.
    Success { session_id: Seq<char>, result: ResponseView },
    /// Without any response of the assistant.
    Failure,
}

/// Whether the message is translated on its way in: the two languages
/// differ and the message is not blank.
pub open spec fn translates_inbound(request: RequestView) -> bool {
    request.source_lang != request.target_lang && !blank(request.message)
}

/// The state in which a request starts.
pub open spec fn initial(retries: Retries, request: RequestView) -> Machine {
    Machine {
        retries,
        stage: if translates_inbound(request) {
            Stage::TranslateInbound
        } else {
            Stage::EstablishSession
        },
        attempt: 0,
        message: request.message,
        source: request.source_lang,
        target: request.target_lang,
        context: request.context,
        requested_session: request.session_id,
        session: None,
        answer: None,
    }
}

/// Whether a call of the translation service succeeded: it gave at least
/// one translation.
pub open spec fn succeeded(outcome: Result<Seq<Seq<char>>, WLTErr>) -> bool {
    outcome is Ok && outcome->Ok_0.len() > 0
}

/// Whether the response `answer` is translated on its way out: the two
/// languages differ, every item of the response has the field its kind
/// requires, and there is at least one text to translate.
pub open spec fn translates_outbound(m: Machine, answer: ResponseView) -> bool {
    &&& m.source != m.target
    &&& complete(answer.output.generic)
    &&& slots_of(answer.output.generic).len() > 0
}

/// The state `m` moved to `stage`, with no failed attempt in it yet.
pub open spec fn enter(m: Machine, stage: Stage) -> Machine {
    Machine { stage, attempt: 0, ..m }
}

/// The state after one more failed attempt in a stage that allows
/// `retries` of them to be made good: the same stage while an attempt is
/// left, else `exhausted`.
pub open spec fn failed(m: Machine, retries: usize, exhausted: Stage) -> Machine {
    if m.attempt < retries {
        Machine { attempt: m.attempt + 1, ..m }
    } else {
        enter(m, exhausted)
    }
}

/// The state that follows `m` when `event` occurs.
///
/// An event that the stage of `m` does not wait for changes nothing.
pub open spec fn next(m: Machine, event: Occurrence) -> Machine {
    match (m.stage, event) {
        (Stage::TranslateInbound, Occurrence::Translated(outcome)) => {
            if succeeded(outcome) {
                enter(Machine { message: outcome->Ok_0[0], ..m }, Stage::EstablishSession)
            } else {
                failed(m, m.retries.wlt, Stage::EstablishSession)
            }
        },
        (Stage::EstablishSession, Occurrence::SessionOpened(id)) => {
            enter(Machine { session: Some(id), ..m }, Stage::SendToAssistant)
        },
        (Stage::EstablishSession, Occurrence::SessionFailed(_)) => enter(m, Stage::Emit),
        (Stage::SendToAssistant, Occurrence::Answered(Ok(answer))) => {
            enter(
                Machine { answer: Some(answer), ..m },
                if translates_outbound(m, answer) {
                    Stage::TranslateOutbound
                } else {
                    Stage::Emit
                },
            )
        },
        (Stage::SendToAssistant, Occurrence::Answered(Err(_))) => {
            failed(m, m.retries.wa, Stage::Emit)
        },
        (Stage::TranslateOutbound, Occurrence::Translated(outcome)) => {
            if succeeded(outcome) {
                let answer = m.answer->0;
                let items = answer.output.generic;
                enter(
                    Machine {
                        answer: Some(
                            with_items(answer, reinserted(items, slots_of(items), outcome->Ok_0)),
                        ),
                        ..m
                    },
                    Stage::Emit,
                )
            } else {
                failed(m, m.retries.wlt, Stage::Emit)
            }
        },
        _ => m,
    }
}

/// What the orchestrator asks for in the state `m`.
pub open spec fn action_of(m: Machine) -> Request {
    match m.stage {
        Stage::TranslateInbound => Request::Translate {
            text: seq![m.message],
            source: m.source,
            target: m.target,
        },
        Stage::EstablishSession => match m.requested_session {
            Some(session_id) => Request::Reattach { session_id },
            None => Request::CreateSession,
        },
        Stage::SendToAssistant => Request::Send { message: m.message, context: m.context },
        Stage::TranslateOutbound => Request::Translate {
            text: texts_of(m.answer->0.output.generic),
            source: m.target,
            target: m.source,
        },
        Stage::Emit => Request::Emit,
    }
}

/// How the request ends, once `m` has reached the last stage: with the
/// assistant's response if there is one, else in failure.
pub open spec fn verdict_of(m: Machine) -> Verdict {
    if m.answer is Some && m.session is Some {
        Verdict::Success { session_id: m.session->0, result: m.answer->0 }
    } else {
        Verdict::Failure
    }
}

/// The state reached from `m` when the events of `events` occur one after
/// the other.
pub open spec fn run(m: Machine, events: Seq<Occurrence>) -> Machine
    decreases events.len(),
{
    if events.len() == 0 {
        m
    } else {
        next(run(m, events.drop_last()), events.last())
    }
}

/// What holds of every state that a request can be in.
///
/// No stage has seen more failed attempts than it has retries. There is no
/// session before one was established, and no response before the
/// assistant gave one; a response is translated only if it qualifies; and
/// where there is a response there is a session.
pub open spec fn sound(m: Machine) -> bool {
    match m.stage {
        Stage::TranslateInbound => {
            &&& m.attempt <= m.retries.wlt
            &&& m.source != m.target
            &&& m.session is None
            &&& m.answer is None
        },
        Stage::EstablishSession => m.attempt == 0 && m.session is None && m.answer is None,
        Stage::SendToAssistant => {
            &&& m.attempt <= m.retries.wa
            &&& m.session is Some
            &&& m.answer is None
        },
        Stage::TranslateOutbound => {
            &&& m.attempt <= m.retries.wlt
            &&& m.session is Some
            &&& m.answer is Some
            &&& translates_outbound(m, m.answer->0)
        },
        Stage::Emit => m.attempt == 0 && (m.answer is Some ==> m.session is Some),
    }
}

/// Whether `event` is of the kind that the stage of `m` waits for.
pub open spec fn awaited(m: Machine, event: Occurrence) -> bool {
    match m.stage {
        Stage::TranslateInbound | Stage::TranslateOutbound => event is Translated,
        Stage::EstablishSession => event is SessionOpened || event is SessionFailed,
        Stage::SendToAssistant => event is Answered,
        Stage::Emit => false,
    }
}

/// A bound on the number of awaited events that can still occur before the
/// request is over: in each stage that lies ahead one event for the first
/// attempt and one for each retry, and one event for the session.
pub open spec fn remaining(m: Machine) -> nat {
    let translation = m.retries.wlt as nat + 1;
    let sending = m.retries.wa as nat + 1;
    match m.stage {
        Stage::TranslateInbound => (translation - m.attempt) as nat + 1 + sending + translation,
        Stage::EstablishSession => 1 + sending + translation,
        Stage::SendToAssistant => (sending - m.attempt) as nat + translation,
        Stage::TranslateOutbound => (translation - m.attempt) as nat,
        Stage::Emit => 0,
    }
}

} // verus!
