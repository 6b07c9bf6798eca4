use covid_unified_gateway::wa::{
    ContextBuilder, EntityBuilder, InputType, UnknownType, UserInputBuilder,
};

fn named(name: &str) -> UnknownType {
    let mut object = serde_json::Map::new();
    object.insert("name".to_owned(), serde_json::Value::String(name.to_owned()));
    UnknownType::Value(serde_json::Value::Object(object))
}

fn json_of(value: &UnknownType) -> String {
    match value {
        UnknownType::Raw(raw) => raw.get().to_owned(),
        UnknownType::Value(value) => serde_json::to_string(value).unwrap(),
    }
}

#[test]
fn test_create_entity_builder() {
    println!("{:?}", EntityBuilder::builder("a".to_owned(), [2, 2], "abcd".to_owned()));
}

#[test]
fn test_build_entity_with_meta() {
    println!(
        "{:?}",
        EntityBuilder::builder("b".to_owned(), [2, 2], "bbbb".to_owned())
            .metadata(named("me"))
            .confidence(0.5f32.to_bits())
    );
}

#[test]
fn test_build_context() {
    let ctx = ContextBuilder::builder()
        .timezone("Asia/Bangkok".to_owned())
        .user_defined(named("whoami"));
    println!("{:?}", ctx)
}

#[test]
fn test_build_user_input() {
    let ui = UserInputBuilder::builder()
        .message_type(InputType::Text)
        .text("yo")
        .entities(vec![EntityBuilder::builder("unknown".to_owned(), [2, 2], "yo".to_owned())
            .build()]);
    println!("{:?}", ui)
}

#[test]
fn entity_builder_sets_required_parts_only() {
    let entity = EntityBuilder::builder("a".to_owned(), [2, 6], "abcd".to_owned()).build();
    assert_eq!(entity.entity, "a");
    assert_eq!(entity.location, [2, 6]);
    assert_eq!(entity.value, "abcd");
    assert!(entity.confidence.is_none());
    assert!(entity.metadata.is_none());
    assert!(entity.groups.is_none());
    assert!(entity.interpretation.is_none());
    assert!(entity.alternatives.is_none());
    assert!(entity.role.is_none());
}

#[test]
fn entity_builder_keeps_every_part() {
    let entity = EntityBuilder::builder("b".to_owned(), [0, 4], "bbbb".to_owned())
        .metadata(named("me"))
        .confidence(0.5f32.to_bits())
        .groups(vec![covid_unified_gateway::wa::CapturedGrouup {
            group: "group_0".to_owned(),
            location: Some((0, 4)),
        }])
        .alternatives(vec![covid_unified_gateway::wa::AlternativeEntity {
            value: Some("bbb".to_owned()),
            confidence: Some(0.25f32.to_bits()),
        }])
        .role(covid_unified_gateway::wa::EntityRole { entity_type: Some("date_from".to_owned()) })
        .build();
    assert_eq!(entity.entity, "b");
    assert_eq!(entity.value, "bbbb");
    assert_eq!(entity.confidence.map(f32::from_bits), Some(0.5f32));
    assert_eq!(json_of(entity.metadata.as_ref().unwrap()), "{\"name\":\"me\"}");
    let groups = entity.groups.unwrap();
    assert_eq!(groups.len(), 1);
    assert_eq!(groups[0].group, "group_0");
    assert_eq!(groups[0].location, Some((0, 4)));
    let alternatives = entity.alternatives.unwrap();
    assert_eq!(alternatives[0].value.as_deref(), Some("bbb"));
    assert_eq!(alternatives[0].confidence.map(f32::from_bits), Some(0.25f32));
    assert_eq!(entity.role.unwrap().entity_type.as_deref(), Some("date_from"));
    assert!(entity.interpretation.is_none());
}

#[test]
fn context_builder_files_user_defined_under_main_skill() {
    let context = ContextBuilder::builder()
        .timezone("Asia/Bangkok".to_owned())
        .user_id("u-1".to_owned())
        .turn_count(3)
        .locale("th-TH".to_owned())
        .reference_time("2020-04-01T00:00:00Z".to_owned())
        .user_defined(named("whoami"))
        .build();
    let system = context.global.unwrap().system.unwrap();
    assert_eq!(system.timezone.as_deref(), Some("Asia/Bangkok"));
    assert_eq!(system.user_id.as_deref(), Some("u-1"));
    assert_eq!(system.turn_count, Some(3));
    assert_eq!(system.locale.as_deref(), Some("th-TH"));
    assert_eq!(system.reference_time.as_deref(), Some("2020-04-01T00:00:00Z"));
    let skills = context.skills.unwrap();
    assert_eq!(skills.len(), 1);
    let skill = skills.get("main skill").unwrap();
    assert!(skill.system.is_none());
    assert_eq!(json_of(skill.user_defined.as_ref().unwrap()), "{\"name\":\"whoami\"}");
    assert!(skills.get("other skill").is_none());
}

#[test]
fn context_builder_without_parts_builds_empty_system_and_one_skill() {
    let context = ContextBuilder::builder().build();
    let system = context.global.unwrap().system.unwrap();
    assert!(system.timezone.is_none());
    assert!(system.user_id.is_none());
    assert!(system.turn_count.is_none());
    assert!(system.locale.is_none());
    assert!(system.reference_time.is_none());
    let skills = context.skills.unwrap();
    assert_eq!(skills.len(), 1);
    assert!(skills.get("main skill").unwrap().user_defined.is_none());
}

#[test]
fn user_input_builder_sets_each_part() {
    let input = UserInputBuilder::builder()
        .message_type(InputType::Text)
        .text("yo")
        .suggestion_id("s-1")
        .entities(vec![EntityBuilder::builder("unknown".to_owned(), [2, 2], "yo".to_owned())
            .build()])
        .context(ContextBuilder::builder().build())
        .build();
    assert!(matches!(input.input.message_type, Some(InputType::Text)));
    assert_eq!(input.input.text, Some("yo"));
    assert_eq!(input.input.suggestion_id, Some("s-1"));
    assert!(input.input.options.is_none());
    assert!(input.input.intents.is_none());
    assert_eq!(input.input.entities.as_ref().unwrap().len(), 1);
    assert_eq!(input.input.entities.as_ref().unwrap()[0].entity, "unknown");
    assert!(input.context.is_some());
}

#[test]
fn user_input_attach_replaces_the_context() {
    let input = UserInputBuilder::builder().text("hi").build();
    assert!(input.context.is_none());
    let attached = input.attach(ContextBuilder::builder().user_id("u-2".to_owned()).build());
    assert_eq!(attached.input.text, Some("hi"));
    let system = attached.context.unwrap().global.unwrap().system.unwrap();
    assert_eq!(system.user_id.as_deref(), Some("u-2"));
}

#[test]
fn input_options_default_asks_for_intents_and_context() {
    let options = covid_unified_gateway::wa::InputOptions::default();
    assert!(!options.debug);
    assert!(!options.restart);
    assert!(options.alternate_intents);
    assert!(options.return_context);
    assert!(!options.export);
}

#[test]
fn unknown_type_duplicate_is_the_same_document() {
    let value = named("copy");
    let copy = value.duplicate();
    assert_eq!(json_of(&copy), "{\"name\":\"copy\"}");
    assert!(matches!(copy, UnknownType::Value(_)));
    let raw = UnknownType::Raw(
        serde_json::value::RawValue::from_string("{\"a\": [1, 2]}".to_owned()).unwrap(),
    );
    let raw_copy = raw.duplicate();
    assert!(matches!(raw_copy, UnknownType::Raw(_)));
    assert_eq!(json_of(&raw_copy), "{\"a\": [1, 2]}");
}

#[test]
fn unknown_type_empty_is_the_empty_object() {
    assert_eq!(json_of(&UnknownType::empty()), "{}");
    assert_eq!(json_of(&UnknownType::or_empty(None)), "{}");
    assert_eq!(json_of(&UnknownType::or_empty(Some(named("x")))), "{\"name\":\"x\"}");
}
