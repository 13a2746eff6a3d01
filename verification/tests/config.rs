use mobilisation::domain::category::Category;
use mobilisation::domain::instance_version::{InstanceVersion, InstanceVersionParsingError};
use mobilisation::infra::config::{
    any_null_category, collect_languages, decode_categories, decode_config, ConfigFetchError,
    FetchConfigResponse, RawCategory, RawConfig, RawConfigData, RawConfigResponse,
};

fn category(id: &str, label: &str) -> Option<RawCategory> {
    Some(RawCategory { id: Some(id.to_string()), label: Some(label.to_string()) })
}

fn text(value: &str) -> Option<String> {
    Some(value.to_string())
}

fn config() -> RawConfig {
    RawConfig {
        version: text("5.1.0"),
        event_categories: Some(vec![category("ARTS", "Arts"), category("GAMES", "Games")]),
        languages: Some(vec![text("fr"), None, text("en")]),
    }
}

fn answer(config: RawConfig) -> RawConfigResponse {
    RawConfigResponse { data: Some(RawConfigData { config: Some(config) }) }
}

fn missing_field(outcome: Result<FetchConfigResponse, ConfigFetchError>) -> String {
    match outcome {
        Err(ConfigFetchError::MissingField(name)) => name,
        other => panic!("{:?}", other),
    }
}

#[test]
fn a_whole_configuration_decodes() {
    let decoded = decode_config(&answer(config())).unwrap();
    assert_eq!(decoded.instance_version, InstanceVersion { major: 5, minor: 1, patch: 0 });
    assert_eq!(
        decoded.categories,
        vec![
            Category { id: "ARTS".to_string(), label: "Arts".to_string() },
            Category { id: "GAMES".to_string(), label: "Games".to_string() },
        ]
    );
    assert_eq!(decoded.languages, vec!["fr".to_string(), "en".to_string()]);
}

#[test]
fn empty_lists_are_a_configuration() {
    let mut raw = config();
    raw.event_categories = Some(vec![]);
    raw.languages = Some(vec![None, None]);
    let decoded = decode_config(&answer(raw)).unwrap();
    assert!(decoded.categories.is_empty());
    assert!(decoded.languages.is_empty());
}

#[test]
fn without_version_the_version_is_missed() {
    let mut raw = config();
    raw.version = None;
    assert_eq!(missing_field(decode_config(&answer(raw))), "version");
    assert_eq!(missing_field(decode_config(&RawConfigResponse { data: None })), "version");
    let no_config = RawConfigResponse { data: Some(RawConfigData { config: None }) };
    assert_eq!(missing_field(decode_config(&no_config)), "version");
}

#[test]
fn a_version_that_does_not_read_fails_the_configuration() {
    let mut raw = config();
    raw.version = text("5.1");
    match decode_config(&answer(raw)) {
        Err(ConfigFetchError::InstanceVersionParsingError(InstanceVersionParsingError::ParseError(
            given,
        ))) => assert_eq!(given, "5.1"),
        other => panic!("{:?}", other),
    }
    let mut raw = config();
    raw.version = text("5.1.0-rc1");
    assert!(matches!(
        decode_config(&answer(raw)),
        Err(ConfigFetchError::InstanceVersionParsingError(
            InstanceVersionParsingError::ParseIntError(_)
        ))
    ));
}

#[test]
fn the_version_is_read_before_the_lists_are_looked_at() {
    let raw = RawConfig { version: text("x"), event_categories: None, languages: None };
    assert!(matches!(
        decode_config(&answer(raw)),
        Err(ConfigFetchError::InstanceVersionParsingError(_))
    ));
}

#[test]
fn without_categories_the_categories_are_missed() {
    let mut raw = config();
    raw.event_categories = None;
    raw.languages = None;
    assert_eq!(missing_field(decode_config(&answer(raw))), "categories");
}

#[test]
fn a_null_category_fails_the_configuration() {
    let mut raw = config();
    raw.event_categories = Some(vec![category("A", "a"), None]);
    assert_eq!(missing_field(decode_config(&answer(raw))), "category");
    // A null anywhere comes before a part missing earlier in the list.
    let mut raw = config();
    raw.event_categories = Some(vec![Some(RawCategory { id: None, label: None }), None]);
    assert_eq!(missing_field(decode_config(&answer(raw))), "category");
}

#[test]
fn a_category_without_label_or_id_fails_the_configuration() {
    let mut raw = config();
    raw.event_categories = Some(vec![category("A", "a"), Some(RawCategory { id: text("B"), label: None })]);
    assert_eq!(missing_field(decode_config(&answer(raw))), "label");
    let mut raw = config();
    raw.event_categories = Some(vec![Some(RawCategory { id: None, label: text("b") })]);
    assert_eq!(missing_field(decode_config(&answer(raw))), "id");
    // The label is looked at first, and the first category that lacks a part decides.
    let mut raw = config();
    raw.event_categories = Some(vec![Some(RawCategory { id: None, label: None })]);
    assert_eq!(missing_field(decode_config(&answer(raw))), "label");
    let mut raw = config();
    raw.event_categories = Some(vec![
        Some(RawCategory { id: None, label: text("a") }),
        Some(RawCategory { id: text("B"), label: None }),
    ]);
    assert_eq!(missing_field(decode_config(&answer(raw))), "id");
}

#[test]
fn without_languages_the_languages_are_missed() {
    let mut raw = config();
    raw.languages = None;
    assert_eq!(missing_field(decode_config(&answer(raw))), "languages");
}

#[test]
fn categories_decode_on_their_own() {
    let decoded = decode_categories(&vec![category("A", "a"), category("B", "b")]).unwrap();
    assert_eq!(decoded.len(), 2);
    assert_eq!(decoded[1], Category { id: "B".to_string(), label: "b".to_string() });
    assert!(decode_categories(&vec![]).unwrap().is_empty());
    assert!(matches!(
        decode_categories(&vec![None]),
        Err(ConfigFetchError::MissingField(name)) if name == "category"
    ));
}

#[test]
fn null_categories_are_found() {
    assert!(!any_null_category(&vec![]));
    assert!(!any_null_category(&vec![category("A", "a")]));
    assert!(any_null_category(&vec![category("A", "a"), None]));
    assert!(any_null_category(&vec![None, category("A", "a")]));
}

#[test]
fn null_languages_are_left_out() {
    assert_eq!(collect_languages(&vec![None, text("a"), None, text("b"), text("a")]), vec!["a", "b", "a"]);
    assert!(collect_languages(&vec![]).is_empty());
}

#[test]
fn the_default_configuration_is_empty() {
    let empty = FetchConfigResponse::default();
    assert_eq!(empty.instance_version, InstanceVersion::default());
    assert!(empty.categories.is_empty());
    assert!(empty.languages.is_empty());
}
