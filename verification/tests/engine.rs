use covid_unified_gateway::engine::{
    extract, reinsert, slot_is_valid, slots_are_valid, Field, Slot, StructuralErr,
};
use covid_unified_gateway::wa::{
    GenericMessageOutput, OptionElm, OptionInput, OutputOption, ResponseGeneric, ResponseType,
    Suggestion, WAResponse,
};

fn item(kind: ResponseType) -> ResponseGeneric {
    ResponseGeneric {
        response_type: kind,
        text: None,
        time: None,
        typing: None,
        source: None,
        title: None,
        description: None,
        preference: None,
        options: None,
        message_to_human_agent: None,
        topic: None,
        suggestions: None,
        header: None,
        results: None,
    }
}

fn value(text: &str) -> OptionElm {
    OptionElm {
        input: OptionInput {
            message_type: None,
            text: Some(text.to_owned()),
            options: None,
            intents: None,
            entities: None,
            suggestion_id: None,
        },
    }
}

fn text_item(text: &str) -> ResponseGeneric {
    let mut it = item(ResponseType::Text);
    it.text = Some(text.to_owned());
    it
}

fn option_item(title: &str, labels: &[&str]) -> ResponseGeneric {
    let mut it = item(ResponseType::Option);
    it.title = Some(title.to_owned());
    it.options = Some(
        labels.iter().map(|l| OutputOption { label: (*l).to_owned(), value: value(l) }).collect(),
    );
    it
}

fn suggestion_item(title: &str, labels: &[&str]) -> ResponseGeneric {
    let mut it = item(ResponseType::Suggestion);
    it.title = Some(title.to_owned());
    it.suggestions = Some(
        labels
            .iter()
            .map(|l| Suggestion { label: (*l).to_owned(), value: value(l), output: None })
            .collect(),
    );
    it
}

fn response(items: Vec<ResponseGeneric>) -> WAResponse {
    WAResponse {
        output: GenericMessageOutput {
            generic: items,
            intents: None,
            entities: None,
            actions: None,
            debug: None,
        },
        context: None,
    }
}

fn mixed() -> WAResponse {
    let mut image = item(ResponseType::Image);
    image.title = Some("a picture".to_owned());
    image.source = Some("https://example.org/p.png".to_owned());
    let mut pause = item(ResponseType::Pause);
    pause.time = Some(500);
    pause.typing = Some(true);
    response(vec![
        text_item("Hi there"),
        image,
        suggestion_item("Did you mean", &["symptoms", "testing"]),
        pause,
        option_item("Pick one", &["yes", "no", "maybe"]),
        text_item("Bye"),
    ])
}

fn strings(items: &[&str]) -> Vec<String> {
    items.iter().map(|s| (*s).to_owned()).collect()
}

fn slot(item: usize, field: Field) -> Slot {
    Slot { item, field }
}

#[test]
fn extract_visits_items_in_document_order() {
    let r = mixed();
    let batch = extract(&r).unwrap();
    assert_eq!(
        batch.texts,
        strings(&[
            "Hi there",
            "Did you mean",
            "symptoms",
            "testing",
            "Pick one",
            "yes",
            "no",
            "maybe",
            "Bye"
        ])
    );
    assert_eq!(
        batch.slots,
        vec![
            slot(0, Field::Text),
            slot(2, Field::Title),
            slot(2, Field::SuggestionLabel(0)),
            slot(2, Field::SuggestionLabel(1)),
            slot(4, Field::Title),
            slot(4, Field::OptionLabel(0)),
            slot(4, Field::OptionLabel(1)),
            slot(4, Field::OptionLabel(2)),
            slot(5, Field::Text),
        ]
    );
    assert_eq!(batch.len(), 9);
}

#[test]
fn extract_of_empty_response_is_empty() {
    let batch = extract(&response(vec![])).unwrap();
    assert!(batch.slots.is_empty());
    assert!(batch.texts.is_empty());
    assert_eq!(batch.len(), 0);
}

#[test]
fn extract_skips_kinds_without_translatable_text() {
    let mut image = item(ResponseType::Image);
    image.title = Some("title of an image".to_owned());
    image.text = Some("stray".to_owned());
    let mut search = item(ResponseType::Search);
    search.header = Some("results".to_owned());
    let mut agent = item(ResponseType::ConnectToAgent);
    agent.message_to_human_agent = Some("help".to_owned());
    let batch =
        extract(&response(vec![image, search, agent, item(ResponseType::Pause)])).unwrap();
    assert_eq!(batch.len(), 0);
}

#[test]
fn extract_takes_title_alone_when_lists_are_absent_or_empty() {
    let mut bare_suggestion = item(ResponseType::Suggestion);
    bare_suggestion.title = Some("s".to_owned());
    let mut bare_option = item(ResponseType::Option);
    bare_option.title = Some("o".to_owned());
    let r = response(vec![bare_suggestion, bare_option, option_item("e", &[])]);
    let batch = extract(&r).unwrap();
    assert_eq!(batch.texts, strings(&["s", "o", "e"]));
    assert_eq!(
        batch.slots,
        vec![slot(0, Field::Title), slot(1, Field::Title), slot(2, Field::Title)]
    );
}

#[test]
fn extract_ignores_lists_of_the_other_kind() {
    let mut it = suggestion_item("s", &["a"]);
    it.options = Some(vec![OutputOption { label: "not mine".to_owned(), value: value("x") }]);
    it.text = Some("nor this".to_owned());
    let batch = extract(&response(vec![it])).unwrap();
    assert_eq!(batch.texts, strings(&["s", "a"]));
}

#[test]
fn extract_reports_text_item_without_text() {
    let r = response(vec![text_item("ok"), item(ResponseType::Text), item(ResponseType::Option)]);
    assert_eq!(extract(&r).unwrap_err(), StructuralErr::MissingText { item: 1 });
    assert_eq!(extract(&r).unwrap_err().item(), 1);
}

#[test]
fn extract_reports_suggestion_or_option_without_title() {
    let mut untitled = item(ResponseType::Suggestion);
    untitled.suggestions = Some(vec![]);
    let r = response(vec![untitled, item(ResponseType::Text)]);
    assert_eq!(extract(&r).unwrap_err(), StructuralErr::MissingTitle { item: 0 });
    let r = response(vec![text_item("a"), text_item("b"), item(ResponseType::Option)]);
    assert_eq!(extract(&r).unwrap_err(), StructuralErr::MissingTitle { item: 2 });
}

#[test]
fn reinsert_writes_each_translation_at_its_position() {
    let mut r = mixed();
    let batch = extract(&r).unwrap();
    let translated = strings(&["T0", "T1", "T2", "T3", "T4", "T5", "T6", "T7", "T8"]);
    assert!(reinsert(&mut r, &batch.slots, translated.clone()));
    let again = extract(&r).unwrap();
    assert_eq!(again.texts, translated);
    assert_eq!(again.slots, batch.slots);
    let items = &r.output.generic;
    assert_eq!(items.len(), 6);
    assert_eq!(items[0].text.as_deref(), Some("T0"));
    assert_eq!(items[1].title.as_deref(), Some("a picture"));
    assert_eq!(items[1].source.as_deref(), Some("https://example.org/p.png"));
    assert_eq!(items[2].title.as_deref(), Some("T1"));
    let suggestions = items[2].suggestions.as_ref().unwrap();
    assert_eq!(suggestions[0].label, "T2");
    assert_eq!(suggestions[1].label, "T3");
    assert_eq!(suggestions[0].value.input.text.as_deref(), Some("symptoms"));
    assert_eq!(items[3].time, Some(500));
    assert_eq!(items[3].typing, Some(true));
    assert_eq!(items[4].title.as_deref(), Some("T4"));
    let options = items[4].options.as_ref().unwrap();
    assert_eq!(options.len(), 3);
    assert_eq!(options[0].label, "T5");
    assert_eq!(options[1].label, "T6");
    assert_eq!(options[2].label, "T7");
    assert_eq!(options[2].value.input.text.as_deref(), Some("maybe"));
    assert_eq!(items[5].text.as_deref(), Some("T8"));
}

#[test]
fn reinsert_goes_by_position_not_by_content() {
    let mut r = response(vec![text_item("same"), text_item("same"), text_item("same")]);
    let batch = extract(&r).unwrap();
    assert!(reinsert(&mut r, &batch.slots, strings(&["one", "two", "three"])));
    assert_eq!(extract(&r).unwrap().texts, strings(&["one", "two", "three"]));
}

#[test]
fn reinsert_of_the_extracted_texts_changes_nothing() {
    let mut r = mixed();
    let batch = extract(&r).unwrap();
    let before = format!("{:?}", r);
    assert!(reinsert(&mut r, &batch.slots, batch.texts));
    assert_eq!(format!("{:?}", r), before);
}

#[test]
fn reinsert_with_fewer_translations_changes_nothing() {
    let mut r = mixed();
    let batch = extract(&r).unwrap();
    let before = format!("{:?}", r);
    assert!(!reinsert(&mut r, &batch.slots, strings(&["T0", "T1"])));
    assert_eq!(format!("{:?}", r), before);
    assert!(!reinsert(&mut r, &batch.slots, vec![]));
    assert_eq!(format!("{:?}", r), before);
}

#[test]
fn reinsert_with_more_translations_changes_nothing() {
    let mut r = response(vec![text_item("Hi there")]);
    let batch = extract(&r).unwrap();
    assert!(!reinsert(&mut r, &batch.slots, strings(&["Hola", "de más"])));
    assert_eq!(r.output.generic[0].text.as_deref(), Some("Hi there"));
}

#[test]
fn reinsert_with_a_slot_the_response_lacks_changes_nothing() {
    let mut r = response(vec![text_item("a"), option_item("t", &["x"])]);
    let before = format!("{:?}", r);
    let slots = vec![slot(0, Field::Text), slot(1, Field::OptionLabel(1))];
    assert!(!reinsert(&mut r, &slots, strings(&["A", "X"])));
    assert_eq!(format!("{:?}", r), before);
    let slots = vec![slot(0, Field::Text), slot(2, Field::Text)];
    assert!(!reinsert(&mut r, &slots, strings(&["A", "X"])));
    assert_eq!(format!("{:?}", r), before);
}

#[test]
fn reinsert_into_empty_batch_is_applied_and_changes_nothing() {
    let mut r = response(vec![item(ResponseType::Pause)]);
    let before = format!("{:?}", r);
    assert!(reinsert(&mut r, &vec![], vec![]));
    assert_eq!(format!("{:?}", r), before);
}

#[test]
fn slot_validity_follows_kind_and_presence() {
    let r = mixed();
    assert!(slot_is_valid(&r, &slot(0, Field::Text)));
    assert!(!slot_is_valid(&r, &slot(0, Field::Title)));
    assert!(!slot_is_valid(&r, &slot(1, Field::Title)));
    assert!(slot_is_valid(&r, &slot(2, Field::Title)));
    assert!(slot_is_valid(&r, &slot(2, Field::SuggestionLabel(1))));
    assert!(!slot_is_valid(&r, &slot(2, Field::SuggestionLabel(2))));
    assert!(!slot_is_valid(&r, &slot(2, Field::OptionLabel(0))));
    assert!(slot_is_valid(&r, &slot(4, Field::OptionLabel(2))));
    assert!(!slot_is_valid(&r, &slot(4, Field::OptionLabel(3))));
    assert!(!slot_is_valid(&r, &slot(6, Field::Text)));
    assert!(!slot_is_valid(&response(vec![item(ResponseType::Text)]), &slot(0, Field::Text)));
    assert!(slots_are_valid(&r, &vec![slot(0, Field::Text), slot(5, Field::Text)]));
    assert!(!slots_are_valid(&r, &vec![slot(0, Field::Text), slot(3, Field::Text)]));
    assert!(slots_are_valid(&r, &vec![]));
}

#[test]
fn reinsert_into_chosen_slots_changes_those_texts_only() {
    let mut r = mixed();
    assert!(reinsert(&mut r, &vec![slot(4, Field::OptionLabel(1))], strings(&["nein"])));
    assert_eq!(
        extract(&r).unwrap().texts,
        strings(&[
            "Hi there",
            "Did you mean",
            "symptoms",
            "testing",
            "Pick one",
            "yes",
            "nein",
            "maybe",
            "Bye"
        ])
    );
    let slots = vec![
        slot(2, Field::Title),
        slot(2, Field::SuggestionLabel(0)),
        slot(5, Field::Text),
        slot(2, Field::Title),
    ];
    assert!(reinsert(&mut r, &slots, strings(&["first", "Symptome", "Tschüs", "Meinten Sie"])));
    assert_eq!(
        extract(&r).unwrap().texts,
        strings(&[
            "Hi there",
            "Meinten Sie",
            "Symptome",
            "testing",
            "Pick one",
            "yes",
            "nein",
            "maybe",
            "Tschüs"
        ])
    );
}
