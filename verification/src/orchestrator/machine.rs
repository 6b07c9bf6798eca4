//! The orchestrator as it runs: it is started on a request, says what it
//! asks for, and is told what came of it, until the result can be emitted.
//! It makes no call itself; whoever drives it performs the calls.

use vstd::prelude::*;
use crate::engine::extract::{extract, TextBatch};
use crate::engine::reinsert::reinsert;
use crate::engine::slot::strings_view;
use crate::orchestrator::model::{
    action_of, enter, failed, initial, next, sound, verdict_of, Machine, Occurrence, Request,
    RequestView, Retries, Stage, Verdict,
};
use crate::text::is_blank;
use crate::utils::CurlErr;
use crate::wa::json::UnknownType;
use crate::wa::response::WAResponse;
use crate::wa::view::text_view;
use crate::wlt::{received, WLTErr, WLTTranslationRequest, WLTTranslationResponse};

verus! {

/// One request to the gateway.
#[derive(Debug)]
pub struct Params {
    /// Free-form context for the assistant.
    pub context: Option<UnknownType>,
    /// The session to go on with. Without one, a session is created.
    pub session_id: Option<String>,
    /// What the user wrote.
    pub message: String,
    /// The user's language.
    pub source_lang: String,
    /// The assistant's language.
    pub target_lang: String,
}

impl View for Params {
    type V = RequestView;

    open spec fn view(&self) -> RequestView {
        RequestView {
            context: self.context,
            session_id: text_view(self.session_id),
            message: self.message@,
            source_lang: self.source_lang@,
            target_lang: self.target_lang@,
        }
    }
}

/// What the driver tells the orchestrator.
#[derive(Debug)]
pub enum Event {
    /// What the transport made of posting a translation request.
    Translated(Result<WLTTranslationResponse, CurlErr>),
    /// A session is at hand, with this identifier.
    SessionOpened(String),
    /// No session could be had.
    SessionFailed(CurlErr),
    /// What the transport made of sending the message to the assistant.
    Answered(Result<WAResponse, CurlErr>),
}

/// The translated texts of a translation call, or the failure it amounts
/// to, given what the transport made of it.
pub open spec fn translation(outcome: Result<WLTTranslationResponse, CurlErr>) -> Result<
    Seq<Seq<char>>,
    WLTErr,
> {
    match received(outcome) {
        Ok(response) => Ok(response.texts()),
        Err(e) => Err(e),
    }
}

impl View for Event {
    type V = Occurrence;

    open spec fn view(&self) -> Occurrence {
        match self {
            Event::Translated(outcome) => Occurrence::Translated(translation(*outcome)),
            Event::SessionOpened(id) => Occurrence::SessionOpened(id@),
            Event::SessionFailed(e) => Occurrence::SessionFailed(*e),
            Event::Answered(outcome) => Occurrence::Answered(
                match outcome {
                    Ok(answer) => Ok(answer@),
                    Err(e) => Err(*e),
                },
            ),
        }
    }
}

/// What the orchestrator asks its driver to do.
#[derive(Debug)]
pub enum Action {
    /// Translate these texts from `source` to `target`, and report
    /// [`Event::Translated`].
    Translate { text: Vec<String>, source: String, target: String },
    /// Go on with the session named, without asking the assistant, and
    /// report [`Event::SessionOpened`].
    Reattach { session_id: String },
    /// Create a session with the assistant, and report
    /// [`Event::SessionOpened`] or [`Event::SessionFailed`].
    CreateSession,
    /// Send this message to the assistant, with this context if any, and
    /// report [`Event::Answered`].
    Send { message: String, context: Option<UnknownType> },
    /// Take the result with [`Orchestrator::into_outcome`] and emit it.
    Emit,
}

impl View for Action {
    type V = Request;

    open spec fn view(&self) -> Request {
        match self {
            Action::Translate { text, source, target } => Request::Translate {
                text: strings_view(text@),
                source: source@,
                target: target@,
            },
            Action::Reattach { session_id } => Request::Reattach { session_id: session_id@ },
            Action::CreateSession => Request::CreateSession,
            Action::Send { message, context } => Request::Send {
                message: message@,
                context: *context,
            },
            Action::Emit => Request::Emit,
        }
    }
}

/// How a request ended.
#[derive(Debug)]
pub enum Outcome {
    /// With the assistant's response, in the session named.
    Success { session_id: String, result: WAResponse },
    /// Without any response of the assistant.
    Failure,
}

impl View for Outcome {
    type V = Verdict;

    open spec fn view(&self) -> Verdict {
        match self {
            Outcome::Success { session_id, result } => Verdict::Success {
                session_id: session_id@,
                result: result@,
            },
            Outcome::Failure => Verdict::Failure,
        }
    }
}

impl Outcome {
    /// The status that is reported for the outcome: 200 for a success, 400
    /// for a failure.
    pub fn status(&self) -> (code: u16)
        ensures
            code == if self is Success {
                200u16
            } else {
                400u16
            },
    {
        match self {
            Outcome::Success { .. } => 200,
            Outcome::Failure => 400,
        }
    }
}

/// A copy of a list of strings.
fn copy_strings(strings: &Vec<String>) -> (copy: Vec<String>)
    ensures
        copy@ == strings@,
{
    let mut copy: Vec<String> = Vec::with_capacity(strings.len());
    let mut i: usize = 0;
    while i < strings.len()
        invariant
            i <= strings@.len(),
            copy@ == strings@.take(i as int),
        decreases strings@.len() - i,
    {
        copy.push(strings[i].clone());
        assert(copy@ =~= strings@.take(i + 1));
        i += 1;
    }
    assert(strings@.take(i as int) =~= strings@);
    copy
}

/// A copy of a context that may be absent.
fn copy_context(context: &Option<UnknownType>) -> (copy: Option<UnknownType>)
    ensures
        copy == *context,
{
    match context {
        Some(c) => Some(c.duplicate()),
        None => None,
    }
}

/// The state of one request on its way through the gateway.
#[derive(Debug)]
pub struct Orchestrator {
    retries: Retries,
    stage: Stage,
    attempt: usize,
    message: String,
    source_lang: String,
    target_lang: String,
    context: Option<UnknownType>,
    requested_session: Option<String>,
    session_id: Option<String>,
    answer: Option<WAResponse>,
    batch: Option<TextBatch>,
}

impl View for Orchestrator {
    type V = Machine;

    closed spec fn view(&self) -> Machine {
        Machine {
            retries: self.retries,
            stage: self.stage,
            attempt: self.attempt as nat,
            message: self.message@,
            source: self.source_lang@,
            target: self.target_lang@,
            context: self.context,
            requested_session: text_view(self.requested_session),
            session: text_view(self.session_id),
            answer: match self.answer {
                Some(answer) => Some(answer@),
                None => None,
            },
        }
    }
}

impl Orchestrator {
    #[verifier::type_invariant]
    spec fn well_formed(self) -> bool {
        &&& sound(self@)
        &&& self.stage is TranslateOutbound ==> self.batch is Some && self.batch->0.drawn_from(
            self.answer->0@.output.generic,
        )
    }

    /// Takes up a request.
    ///
    /// The message is to be translated first if the two languages differ
    /// and the message is not blank; else a session is to be established
    /// right away.
    pub fn start(retries: Retries, params: Params) -> (m: Orchestrator)
        ensures
            m@ == initial(retries, params@),
            sound(m@),
    {
        let translate = !(params.source_lang == params.target_lang) && !is_blank(
            params.message.as_str(),
        );
        Orchestrator {
            retries,
            stage: if translate {
                Stage::TranslateInbound
            } else {
                Stage::EstablishSession
            },
            attempt: 0,
            message: params.message,
            source_lang: params.source_lang,
            target_lang: params.target_lang,
            context: params.context,
            requested_session: params.session_id,
            session_id: None,
            answer: None,
            batch: None,
        }
    }

    /// The stage that the request is in.
    pub fn stage(&self) -> (stage: Stage)
        ensures
            stage == self@.stage,
    {
        self.stage
    }

    /// Whether the request is over.
    pub fn finished(&self) -> (over: bool)
        ensures
            over == (self@.stage is Emit),
    {
        match self.stage {
            Stage::Emit => true,
            _ => false,
        }
    }

    /// What is to be done now.
    pub fn action(&self) -> (action: Action)
        ensures
            action@ == action_of(self@),
            sound(self@),
    {
        proof {
            use_type_invariant(self);
        }
        match self.stage {
            Stage::TranslateInbound => {
                let mut text: Vec<String> = Vec::with_capacity(1);
                text.push(self.message.clone());
                assert(strings_view(text@) =~= seq![self.message@]);
                Action::Translate {
                    text,
                    source: self.source_lang.clone(),
                    target: self.target_lang.clone(),
                }
            },
            Stage::EstablishSession => match &self.requested_session {
                Some(session_id) => Action::Reattach { session_id: session_id.clone() },
                None => Action::CreateSession,
            },
            Stage::SendToAssistant => Action::Send {
                message: self.message.clone(),
                context: copy_context(&self.context),
            },
            Stage::TranslateOutbound => match &self.batch {
                Some(batch) => Action::Translate {
                    text: copy_strings(&batch.texts),
                    source: self.target_lang.clone(),
                    target: self.source_lang.clone(),
                },
                None => Action::Emit,
            },
            Stage::Emit => Action::Emit,
        }
    }

    /// The state after one more failed attempt of a translation. When no
    /// attempt is left, the request goes on without the translation: to the
    /// session if it was the message that was to be translated, to the end
    /// if it was the response.
    fn translation_failed(self) -> (m: Orchestrator)
        requires
            self.stage is TranslateInbound || self.stage is TranslateOutbound,
        ensures
            m@ == failed(
                self@,
                self@.retries.wlt,
                if self.stage is TranslateInbound {
                    Stage::EstablishSession
                } else {
                    Stage::Emit
                },
            ),
    {
        proof {
            use_type_invariant(&self);
        }
        if self.attempt < self.retries.wlt {
            Orchestrator { attempt: self.attempt + 1, ..self }
        } else {
            let exhausted = match self.stage {
                Stage::TranslateInbound => Stage::EstablishSession,
                _ => Stage::Emit,
            };
            Orchestrator { stage: exhausted, attempt: 0, batch: None, ..self }
        }
    }

    /// The inbound translation ended.
    fn inbound_translated(self, outcome: Result<WLTTranslationResponse, CurlErr>) -> (m:
        Orchestrator)
        requires
            self.stage is TranslateInbound,
        ensures
            m@ == next(self@, Occurrence::Translated(translation(outcome))),
    {
        proof {
            use_type_invariant(&self);
        }
        match WLTTranslationRequest::receive(outcome) {
            Ok(response) => {
                let ghost first = response.translations@[0].translation;
                let mut texts = response.into_texts();
                let mut message = String::new();
                std::mem::swap(&mut texts[0], &mut message);
                assert(message == first);
                assert(response.texts()[0] == first@);
                Orchestrator { stage: Stage::EstablishSession, attempt: 0, message, ..self }
            },
            Err(_) => self.translation_failed(),
        }
    }

    /// A session is at hand, or none could be had.
    fn session_settled(self, id: Option<String>) -> (m: Orchestrator)
        requires
            self.stage is EstablishSession,
        ensures
            m@ == (match id {
                Some(id) => next(self@, Occurrence::SessionOpened(id@)),
                None => enter(self@, Stage::Emit),
            }),
    {
        proof {
            use_type_invariant(&self);
        }
        match id {
            Some(id) => Orchestrator {
                stage: Stage::SendToAssistant,
                attempt: 0,
                session_id: Some(id),
                ..self
            },
            None => Orchestrator { stage: Stage::Emit, attempt: 0, ..self },
        }
    }

    /// The message to the assistant ended.
    fn answered(self, outcome: Result<WAResponse, CurlErr>) -> (m: Orchestrator)
        requires
            self.stage is SendToAssistant,
        ensures
            m@ == next(
                self@,
                Occurrence::Answered(
                    match outcome {
                        Ok(answer) => Ok(answer@),
                        Err(e) => Err(e),
                    },
                ),
            ),
    {
        proof {
            use_type_invariant(&self);
        }
        match outcome {
            Ok(answer) => {
                let batch = if self.source_lang == self.target_lang {
                    None
                } else {
                    match extract(&answer) {
                        Ok(batch) => if batch.slots.len() > 0 {
                            Some(batch)
                        } else {
                            None
                        },
                        Err(_) => None,
                    }
                };
                let stage = match &batch {
                    Some(_) => Stage::TranslateOutbound,
                    None => Stage::Emit,
                };
                Orchestrator { stage, attempt: 0, answer: Some(answer), batch, ..self }
            },
            Err(_) => {
                if self.attempt < self.retries.wa {
                    Orchestrator { attempt: self.attempt + 1, ..self }
                } else {
                    Orchestrator { stage: Stage::Emit, attempt: 0, ..self }
                }
            },
        }
    }

    /// The outbound translation ended.
    fn outbound_translated(self, outcome: Result<WLTTranslationResponse, CurlErr>) -> (m:
        Orchestrator)
        requires
            self.stage is TranslateOutbound,
        ensures
            m@ == next(self@, Occurrence::Translated(translation(outcome))),
    {
        proof {
            use_type_invariant(&self);
        }
        match WLTTranslationRequest::receive(outcome) {
            Ok(response) => {
                let texts = response.into_texts();
                assert(strings_view(texts@) =~= response.texts());
                let Orchestrator {
                    retries,
                    stage,
                    attempt,
                    message,
                    source_lang,
                    target_lang,
                    context,
                    requested_session,
                    session_id,
                    answer,
                    batch,
                } = self;
                let answer = match (answer, batch) {
                    (Some(answer), Some(batch)) => {
                        let mut answer = answer;
                        reinsert(&mut answer, &batch.slots, texts);
                        Some(answer)
                    },
                    (answer, _) => answer,
                };
                Orchestrator {
                    retries,
                    stage: Stage::Emit,
                    attempt: 0,
                    message,
                    source_lang,
                    target_lang,
                    context,
                    requested_session,
                    session_id,
                    answer,
                    batch: None,
                }
            },
            Err(_) => self.translation_failed(),
        }
    }

    /// Takes note of `event` and moves on.
    ///
    /// An event that the present stage does not wait for changes nothing.
    pub fn advance(self, event: Event) -> (m: Orchestrator)
        ensures
            m@ == next(self@, event@),
            sound(m@),
    {
        proof {
            use_type_invariant(&self);
        }
        let m = match self.stage {
            Stage::TranslateInbound => match event {
                Event::Translated(outcome) => self.inbound_translated(outcome),
                _ => self,
            },
            Stage::EstablishSession => match event {
                Event::SessionOpened(id) => self.session_settled(Some(id)),
                Event::SessionFailed(_) => self.session_settled(None),
                _ => self,
            },
            Stage::SendToAssistant => match event {
                Event::Answered(outcome) => self.answered(outcome),
                _ => self,
            },
            Stage::TranslateOutbound => match event {
                Event::Translated(outcome) => self.outbound_translated(outcome),
                _ => self,
            },
            Stage::Emit => self,
        };
        proof {
            use_type_invariant(&m);
        }
        m
    }

    /// Takes note of `event`, moves on, and says what is to be done next.
    pub fn step(self, event: Event) -> (r: (Orchestrator, Action))
        ensures
            r.0@ == next(self@, event@),
            r.1@ == action_of(r.0@),
            sound(r.0@),
    {
        let m = self.advance(event);
        let action = m.action();
        (m, action)
    }

    /// Gives up the orchestrator for the result of the request, if the
    /// request is over.
    pub fn into_outcome(self) -> (r: Option<Outcome>)
        ensures
            r is Some == (self@.stage is Emit),
            r is Some ==> r->0@ == verdict_of(self@),
    {
        proof {
            use_type_invariant(&self);
        }
        match self.stage {
            Stage::Emit => match (self.session_id, self.answer) {
                (Some(session_id), Some(result)) => Some(Outcome::Success { session_id, result }),
                _ => Some(Outcome::Failure),
            },
            _ => None,
        }
    }
}

} // verus!
