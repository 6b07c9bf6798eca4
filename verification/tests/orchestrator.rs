use covid_unified_gateway::orchestrator::{
    Action, Event, Orchestrator, Outcome, Params, Retries, Stage,
};
use covid_unified_gateway::utils::CurlErr;
use covid_unified_gateway::wa::{
    GenericMessageOutput, OptionElm, OptionInput, OutputOption, ResponseGeneric, ResponseType,
    UnknownType, WAResponse,
};
use covid_unified_gateway::wlt::{Translation, WLTTranslationResponse};

fn item(kind: ResponseType) -> ResponseGeneric {
    ResponseGeneric {
        response_type: kind,
        text: None,
        time: None,
        typing: None,
        source: None,
        title: None,
        description: None,
        preference: None,
        options: None,
        message_to_human_agent: None,
        topic: None,
        suggestions: None,
        header: None,
        results: None,
    }
}

fn text_item(text: &str) -> ResponseGeneric {
    let mut it = item(ResponseType::Text);
    it.text = Some(text.to_owned());
    it
}

fn option_item(title: &str, labels: &[&str]) -> ResponseGeneric {
    let mut it = item(ResponseType::Option);
    it.title = Some(title.to_owned());
    it.options = Some(
        labels
            .iter()
            .map(|l| OutputOption {
                label: (*l).to_owned(),
                value: OptionElm {
                    input: OptionInput {
                        message_type: None,
                        text: Some((*l).to_owned()),
                        options: None,
                        intents: None,
                        entities: None,
                        suggestion_id: None,
                    },
                },
            })
            .collect(),
    );
    it
}

fn response(items: Vec<ResponseGeneric>) -> WAResponse {
    WAResponse {
        output: GenericMessageOutput {
            generic: items,
            intents: None,
            entities: None,
            actions: None,
            debug: None,
        },
        context: None,
    }
}

fn params(message: &str, source: &str, target: &str) -> Params {
    Params {
        context: None,
        session_id: None,
        message: message.to_owned(),
        source_lang: source.to_owned(),
        target_lang: target.to_owned(),
    }
}

fn translated(texts: &[&str]) -> Event {
    Event::Translated(Ok(WLTTranslationResponse {
        word_count: texts.len() as u32,
        character_count: texts.iter().map(|t| t.len() as u32).sum(),
        translations: texts.iter().map(|t| Translation { translation: (*t).to_owned() }).collect(),
    }))
}

fn translation_failed() -> Event {
    Event::Translated(Err(CurlErr::RequestFail))
}

fn retries(wlt: usize, wa: usize) -> Retries {
    Retries { wlt, wa }
}

fn expect_translate(m: &Orchestrator, texts: &[&str], from: &str, to: &str) {
    match m.action() {
        Action::Translate { text, source, target } => {
            assert_eq!(text, texts.iter().map(|t| (*t).to_owned()).collect::<Vec<String>>());
            assert_eq!(source, from);
            assert_eq!(target, to);
        }
        other => panic!("expected a translation, got {:?}", other),
    }
}

fn expect_send(m: &Orchestrator, expected: &str) {
    match m.action() {
        Action::Send { message, .. } => assert_eq!(message, expected),
        other => panic!("expected a message to the assistant, got {:?}", other),
    }
}

fn texts_of(outcome: &Outcome) -> Vec<String> {
    match outcome {
        Outcome::Success { result, .. } => {
            covid_unified_gateway::engine::extract(result).unwrap().texts
        }
        Outcome::Failure => panic!("the request failed"),
    }
}

#[test]
fn end_to_end_hola() {
    let m = Orchestrator::start(retries(1, 1), params("Hola", "es", "en"));
    assert_eq!(m.stage(), Stage::TranslateInbound);
    expect_translate(&m, &["Hola"], "es", "en");
    let m = m.advance(translated(&["Hello"]));
    assert_eq!(m.stage(), Stage::EstablishSession);
    assert!(matches!(m.action(), Action::CreateSession));
    let m = m.advance(Event::SessionOpened("s-1".to_owned()));
    assert_eq!(m.stage(), Stage::SendToAssistant);
    expect_send(&m, "Hello");
    let m = m.advance(Event::Answered(Ok(response(vec![text_item("Hi there")]))));
    assert_eq!(m.stage(), Stage::TranslateOutbound);
    expect_translate(&m, &["Hi there"], "en", "es");
    let m = m.advance(translated(&["Hola"]));
    assert!(m.finished());
    assert!(matches!(m.action(), Action::Emit));
    let outcome = m.into_outcome().unwrap();
    assert_eq!(outcome.status(), 200);
    match outcome {
        Outcome::Success { session_id, result } => {
            assert_eq!(session_id, "s-1");
            assert_eq!(result.output.generic.len(), 1);
            assert!(matches!(result.output.generic[0].response_type, ResponseType::Text));
            assert_eq!(result.output.generic[0].text.as_deref(), Some("Hola"));
        }
        Outcome::Failure => panic!("the request failed"),
    }
}

#[test]
fn same_language_makes_no_translation_call() {
    let m = Orchestrator::start(retries(3, 3), params("Hello", "en", "en"));
    assert_eq!(m.stage(), Stage::EstablishSession);
    let m = m.advance(Event::SessionOpened("s".to_owned()));
    expect_send(&m, "Hello");
    let m = m.advance(Event::Answered(Ok(response(vec![
        text_item("Hi there"),
        option_item("Pick", &["a", "b"]),
    ]))));
    assert!(m.finished());
    assert!(matches!(m.action(), Action::Emit));
    let outcome = m.into_outcome().unwrap();
    assert_eq!(texts_of(&outcome), vec!["Hi there", "Pick", "a", "b"]);
}

#[test]
fn same_language_ignores_translation_events() {
    let m = Orchestrator::start(retries(1, 1), params("Hello", "en", "en"));
    let m = m.advance(translated(&["Bonjour"]));
    assert_eq!(m.stage(), Stage::EstablishSession);
    let m = m.advance(Event::SessionOpened("s".to_owned()));
    let m = m.advance(translated(&["Bonjour"]));
    expect_send(&m, "Hello");
}

#[test]
fn blank_message_is_forwarded_untranslated() {
    for message in ["", "   ", " \t\r\n", "\u{3000}\u{a0}"] {
        let m = Orchestrator::start(retries(1, 1), params(message, "es", "en"));
        assert_eq!(m.stage(), Stage::EstablishSession);
        let m = m.advance(Event::SessionOpened("s".to_owned()));
        expect_send(&m, message);
    }
    let m = Orchestrator::start(retries(1, 1), params(" . ", "es", "en"));
    assert_eq!(m.stage(), Stage::TranslateInbound);
}

#[test]
fn blank_message_still_translates_the_response() {
    let m = Orchestrator::start(retries(0, 0), params("", "es", "en"));
    let m = m.advance(Event::SessionOpened("s".to_owned()));
    let m = m.advance(Event::Answered(Ok(response(vec![text_item("Welcome")]))));
    expect_translate(&m, &["Welcome"], "en", "es");
}

#[test]
fn inbound_third_attempt_wins_with_two_retries() {
    let m = Orchestrator::start(retries(2, 0), params("Hola", "es", "en"));
    let m = m.advance(translation_failed());
    assert_eq!(m.stage(), Stage::TranslateInbound);
    expect_translate(&m, &["Hola"], "es", "en");
    let m = m.advance(translation_failed());
    assert_eq!(m.stage(), Stage::TranslateInbound);
    let m = m.advance(translated(&["Hello"]));
    assert_eq!(m.stage(), Stage::EstablishSession);
    let m = m.advance(Event::SessionOpened("s".to_owned()));
    expect_send(&m, "Hello");
}

#[test]
fn inbound_exhausted_forwards_message_as_written() {
    let m = Orchestrator::start(retries(2, 0), params("Hola", "es", "en"));
    let m = m.advance(translation_failed());
    let m = m.advance(translation_failed());
    assert_eq!(m.stage(), Stage::TranslateInbound);
    let m = m.advance(translation_failed());
    assert_eq!(m.stage(), Stage::EstablishSession);
    let m = m.advance(translated(&["too late"]));
    let m = m.advance(Event::SessionOpened("s".to_owned()));
    expect_send(&m, "Hola");
}

#[test]
fn inbound_with_zero_retries_has_one_attempt() {
    let m = Orchestrator::start(retries(0, 0), params("Hola", "es", "en"));
    let m = m.advance(translation_failed());
    assert_eq!(m.stage(), Stage::EstablishSession);
}

#[test]
fn inbound_answer_without_translations_counts_as_failure() {
    let m = Orchestrator::start(retries(1, 0), params("Hola", "es", "en"));
    let m = m.advance(translated(&[]));
    assert_eq!(m.stage(), Stage::TranslateInbound);
    let m = m.advance(translated(&[]));
    assert_eq!(m.stage(), Stage::EstablishSession);
    let m = m.advance(Event::SessionOpened("s".to_owned()));
    expect_send(&m, "Hola");
}

#[test]
fn inbound_takes_the_first_translation() {
    let m = Orchestrator::start(retries(0, 0), params("Hola", "es", "en"));
    let m = m.advance(translated(&["Hello", "Hi"]));
    let m = m.advance(Event::SessionOpened("s".to_owned()));
    expect_send(&m, "Hello");
}

#[test]
fn given_session_is_reattached() {
    let mut p = params("Hello", "en", "en");
    p.session_id = Some("known".to_owned());
    let m = Orchestrator::start(retries(0, 0), p);
    match m.action() {
        Action::Reattach { session_id } => assert_eq!(session_id, "known"),
        other => panic!("expected a session to go on with, got {:?}", other),
    }
}

#[test]
fn session_failure_ends_in_failure() {
    let m = Orchestrator::start(retries(1, 1), params("Hello", "en", "en"));
    assert!(m.into_outcome().is_none());
    let m = Orchestrator::start(retries(1, 1), params("Hello", "en", "en"));
    let m = m.advance(Event::SessionFailed(CurlErr::InvalidUrl));
    assert!(m.finished());
    let outcome = m.into_outcome().unwrap();
    assert!(matches!(outcome, Outcome::Failure));
    assert_eq!(outcome.status(), 400);
}

#[test]
fn send_carries_the_context() {
    let mut p = params("Hello", "en", "en");
    let mut object = serde_json::Map::new();
    object.insert("k".to_owned(), serde_json::Value::Bool(true));
    p.context = Some(UnknownType::Value(serde_json::Value::Object(object)));
    let m = Orchestrator::start(retries(0, 0), p).advance(Event::SessionOpened("s".to_owned()));
    match m.action() {
        Action::Send { context: Some(UnknownType::Value(v)), .. } => {
            assert_eq!(serde_json::to_string(&v).unwrap(), "{\"k\":true}")
        }
        other => panic!("expected a message with its context, got {:?}", other),
    }
    let m = Orchestrator::start(retries(0, 0), params("Hello", "en", "en"))
        .advance(Event::SessionOpened("s".to_owned()));
    assert!(matches!(m.action(), Action::Send { context: None, .. }));
}

#[test]
fn send_retries_then_succeeds() {
    let m = Orchestrator::start(retries(0, 2), params("Hello", "en", "en"))
        .advance(Event::SessionOpened("s".to_owned()));
    let m = m.advance(Event::Answered(Err(CurlErr::RequestFail)));
    assert_eq!(m.stage(), Stage::SendToAssistant);
    expect_send(&m, "Hello");
    let m = m.advance(Event::Answered(Err(CurlErr::IncompatibleResultData)));
    assert_eq!(m.stage(), Stage::SendToAssistant);
    let m = m.advance(Event::Answered(Ok(response(vec![text_item("third")]))));
    assert!(m.finished());
    assert_eq!(texts_of(&m.into_outcome().unwrap()), vec!["third"]);
}

#[test]
fn send_exhausted_ends_in_failure() {
    let m = Orchestrator::start(retries(5, 1), params("Hello", "en", "en"))
        .advance(Event::SessionOpened("s".to_owned()));
    let m = m.advance(Event::Answered(Err(CurlErr::RequestFail)));
    assert!(!m.finished());
    let m = m.advance(Event::Answered(Err(CurlErr::RequestFail)));
    assert!(m.finished());
    let m = m.advance(Event::Answered(Ok(response(vec![text_item("late")]))));
    let outcome = m.into_outcome().unwrap();
    assert!(matches!(outcome, Outcome::Failure));
    assert_eq!(outcome.status(), 400);
}

fn answered(wlt_retries: usize, items: Vec<ResponseGeneric>) -> Orchestrator {
    Orchestrator::start(retries(wlt_retries, 0), params("", "es", "en"))
        .advance(Event::SessionOpened("s-9".to_owned()))
        .advance(Event::Answered(Ok(response(items))))
}

#[test]
fn outbound_failure_returns_response_untranslated() {
    let items = || vec![text_item("Hi there"), option_item("Pick", &["a", "b"])];
    let before = format!("{:?}", response(items()));
    let m = answered(2, items());
    let m = m.advance(translation_failed());
    assert_eq!(m.stage(), Stage::TranslateOutbound);
    expect_translate(&m, &["Hi there", "Pick", "a", "b"], "en", "es");
    let m = m.advance(translation_failed());
    let m = m.advance(Event::Translated(Err(CurlErr::IncompatibleResultData)));
    assert!(m.finished());
    match m.into_outcome().unwrap() {
        Outcome::Success { session_id, result } => {
            assert_eq!(session_id, "s-9");
            assert_eq!(format!("{:?}", result), before);
        }
        Outcome::Failure => panic!("the request failed"),
    }
}

#[test]
fn outbound_third_attempt_wins_with_two_retries() {
    let m = answered(2, vec![text_item("Hi there"), option_item("Pick", &["a", "b"])]);
    let m = m.advance(translation_failed());
    let m = m.advance(translation_failed());
    assert_eq!(m.stage(), Stage::TranslateOutbound);
    let m = m.advance(translated(&["Hola", "Elige", "A", "B"]));
    assert!(m.finished());
    assert_eq!(texts_of(&m.into_outcome().unwrap()), vec!["Hola", "Elige", "A", "B"]);
}

#[test]
fn outbound_first_success_wins() {
    let m = answered(3, vec![text_item("Hi there")]);
    let m = m.advance(translated(&["Hola"]));
    assert!(m.finished());
    let m = m.advance(translated(&["Buenas"]));
    let m = m.advance(translation_failed());
    assert_eq!(texts_of(&m.into_outcome().unwrap()), vec!["Hola"]);
}

#[test]
fn outbound_mismatched_count_returns_response_untranslated() {
    let items = || vec![text_item("Hi there"), option_item("Pick", &["a", "b"])];
    let before = format!("{:?}", response(items()));
    for texts in [&["Hola"][..], &["Hola", "Elige", "A"][..], &["1", "2", "3", "4", "5"][..]] {
        let m = answered(2, items()).advance(translated(texts));
        assert!(m.finished());
        match m.into_outcome().unwrap() {
            Outcome::Success { result, .. } => assert_eq!(format!("{:?}", result), before),
            Outcome::Failure => panic!("the request failed"),
        }
    }
}

#[test]
fn outbound_skipped_when_nothing_is_translatable() {
    let m = answered(2, vec![item(ResponseType::Pause), item(ResponseType::Image)]);
    assert!(m.finished());
    assert_eq!(m.into_outcome().unwrap().status(), 200);
    let m = answered(2, vec![]);
    assert!(m.finished());
}

#[test]
fn malformed_response_is_returned_untranslated() {
    let items = || vec![text_item("Hi there"), item(ResponseType::Text)];
    let before = format!("{:?}", response(items()));
    let m = answered(2, items());
    assert!(m.finished());
    match m.into_outcome().unwrap() {
        Outcome::Success { result, .. } => assert_eq!(format!("{:?}", result), before),
        Outcome::Failure => panic!("the request failed"),
    }
}

#[test]
fn events_out_of_turn_change_nothing() {
    let m = Orchestrator::start(retries(1, 1), params("Hola", "es", "en"));
    let m = m.advance(Event::SessionOpened("early".to_owned()));
    let m = m.advance(Event::Answered(Ok(response(vec![text_item("early")]))));
    let m = m.advance(Event::SessionFailed(CurlErr::RequestFail));
    assert_eq!(m.stage(), Stage::TranslateInbound);
    expect_translate(&m, &["Hola"], "es", "en");
    let m = m.advance(translated(&["Hello"])).advance(Event::SessionOpened("s".to_owned()));
    let m = m.advance(Event::SessionOpened("again".to_owned()));
    let m = m.advance(Event::SessionFailed(CurlErr::RequestFail));
    assert_eq!(m.stage(), Stage::SendToAssistant);
    let m = m.advance(Event::Answered(Ok(response(vec![]))));
    match m.into_outcome().unwrap() {
        Outcome::Success { session_id, .. } => assert_eq!(session_id, "s"),
        Outcome::Failure => panic!("the request failed"),
    }
}

#[test]
fn step_advances_and_says_what_is_next() {
    let m = Orchestrator::start(retries(1, 0), params("Hola", "es", "en"));
    let (m, action) = m.step(translation_failed());
    assert_eq!(m.stage(), Stage::TranslateInbound);
    assert!(matches!(action, Action::Translate { .. }));
    let (m, action) = m.step(translated(&["Hello"]));
    assert_eq!(m.stage(), Stage::EstablishSession);
    assert!(matches!(action, Action::CreateSession));
    let (m, action) = m.step(Event::SessionOpened("s".to_owned()));
    match action {
        Action::Send { message, context } => {
            assert_eq!(message, "Hello");
            assert!(context.is_none());
        }
        other => panic!("expected a message to the assistant, got {:?}", other),
    }
    let (m, action) = m.step(Event::Answered(Err(CurlErr::RequestFail)));
    assert!(matches!(action, Action::Emit));
    assert!(m.finished());
}
