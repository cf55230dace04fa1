use hamid_mahdavi_client::credentials::{credentials_from_fields, credentials_json, load_from_json};

#[test]
fn reads_both_members() {
    let doc = r#"{"script_id": "abc", "auth_key": "xyz"}"#;
    assert_eq!(load_from_json(doc), Some(("abc".to_string(), "xyz".to_string())));
}

#[test]
fn rejects_missing_or_malformed() {
    assert_eq!(load_from_json(r#"{"script_id": "abc"}"#), None);
    assert_eq!(load_from_json(r#"{"script_id": "abc", "auth_key": 5}"#), None);
    assert_eq!(load_from_json(r#"{"script_id": "abc", "auth_key": null}"#), None);
    assert_eq!(load_from_json(r#"["abc", "xyz"]"#), None);
    assert_eq!(load_from_json("not json"), None);
    assert_eq!(load_from_json(""), None);
}

#[test]
fn both_empty_is_nothing() {
    assert_eq!(load_from_json(r#"{"script_id": "", "auth_key": ""}"#), None);
    assert_eq!(
        load_from_json(r#"{"script_id": "", "auth_key": "k"}"#),
        Some((String::new(), "k".to_string()))
    );
}

#[test]
fn saved_text_reads_back() {
    let text = credentials_json("id \"quoted\"", "key\\with\nnewline");
    assert_eq!(
        load_from_json(&text),
        Some(("id \"quoted\"".to_string(), "key\\with\nnewline".to_string()))
    );
    assert!(text.contains("\"script_id\""));
    assert!(text.contains("\"auth_key\""));
    assert_eq!(load_from_json(&credentials_json("", "")), None);
}

#[test]
fn saved_text_is_pretty_json() {
    let text = credentials_json("a", "b");
    assert_eq!(text, "{\n  \"auth_key\": \"b\",\n  \"script_id\": \"a\"\n}");
}

#[test]
fn fields_decide() {
    assert_eq!(credentials_from_fields(None, Some("k".into())), None);
    assert_eq!(credentials_from_fields(Some("s".into()), None), None);
    assert_eq!(credentials_from_fields(Some(String::new()), Some(String::new())), None);
    assert_eq!(
        credentials_from_fields(Some("s".into()), Some(String::new())),
        Some(("s".to_string(), String::new()))
    );
}
