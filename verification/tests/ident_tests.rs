use exogress_instance::ident::{
    AccessKeyId, AccountName, LabelName, LabelValue, ParseError, ProfileName, ProjectName,
};

#[test]
fn account_name_round_trips_to_original_input() {
    let input = "my-account-01";
    let parsed = AccountName::parse(input).unwrap();
    assert_eq!(parsed.as_str(), input);
}

#[test]
fn project_name_round_trips_to_original_input() {
    let input = "proj-7";
    let parsed = ProjectName::parse(input).unwrap();
    assert_eq!(parsed.as_str(), input);
}

#[test]
fn access_key_id_round_trips_to_original_input() {
    let input = "01e9z8kq3m";
    let parsed = AccessKeyId::parse(input).unwrap();
    assert_eq!(parsed.as_str(), input);
}

#[test]
fn profile_name_round_trips_to_original_input() {
    let input = "staging";
    let parsed = ProfileName::parse(input).unwrap();
    assert_eq!(parsed.as_str(), input);
}

#[test]
fn label_pair_round_trips_to_original_input() {
    let name = LabelName::parse("env").unwrap();
    let value = LabelValue::parse("production East US").unwrap();
    assert_eq!(name.as_str(), "env");
    assert_eq!(value.as_str(), "production East US");
}

#[test]
fn empty_identifier_is_rejected() {
    assert!(matches!(AccountName::parse(""), Err(ParseError::NotAnIdentifier)));
    assert!(matches!(LabelValue::parse(""), Err(ParseError::NotALabelValue)));
}

#[test]
fn identifier_may_not_start_with_hyphen() {
    assert!(AccountName::parse("-abc").is_err());
    assert!(AccountName::parse("a-bc").is_ok());
}

#[test]
fn identifier_rejects_upper_case_and_spaces() {
    assert!(ProjectName::parse("Proj").is_err());
    assert!(ProjectName::parse("pro j").is_err());
    assert!(ProjectName::parse("pr0j").is_ok());
}

#[test]
fn identifier_rejects_non_ascii() {
    assert!(AccountName::parse("caf\u{e9}").is_err());
}

#[test]
fn label_value_rejects_empty_and_control_characters() {
    assert!(LabelValue::parse("").is_err());
    assert!(LabelValue::parse("line\nbreak").is_err());
    assert!(LabelValue::parse("Tag With Caps!").is_ok());
}
