use hevy_bridge::config::{
    config_document, resolve_api_key, stored_api_key, MissingApiKey, API_KEY_MEMBER, CONFIG_DIR,
    CONFIG_FILE,
};

fn some(s: &str) -> Option<String> {
    Some(s.to_string())
}

#[test]
fn key_from_the_command_line_comes_first() {
    assert_eq!(resolve_api_key(&some("cli"), &some("env"), &some("stored")), Ok("cli".to_string()));
    assert_eq!(resolve_api_key(&some("cli"), &None, &None), Ok("cli".to_string()));
    assert_eq!(resolve_api_key(&some(""), &some("env"), &some("stored")), Ok(String::new()));
}

#[test]
fn key_from_the_environment_comes_second_unless_empty() {
    assert_eq!(resolve_api_key(&None, &some("env"), &some("stored")), Ok("env".to_string()));
    assert_eq!(resolve_api_key(&None, &some("env"), &None), Ok("env".to_string()));
    assert_eq!(resolve_api_key(&None, &some(""), &some("stored")), Ok("stored".to_string()));
    assert_eq!(resolve_api_key(&None, &some(""), &None), Err(MissingApiKey));
}

#[test]
fn stored_key_comes_last() {
    assert_eq!(resolve_api_key(&None, &None, &some("stored")), Ok("stored".to_string()));
    assert_eq!(resolve_api_key(&None, &None, &some("")), Ok(String::new()));
}

#[test]
fn no_key_anywhere_is_an_error() {
    assert_eq!(resolve_api_key(&None, &None, &None), Err(MissingApiKey));
    let message = MissingApiKey.message();
    assert!(message.starts_with("No API key provided. Supply one via:\n  1. --api-key <KEY>\n"));
    assert!(message.ends_with("  3. `hevy-bridge config set-key <KEY>` to persist it"));
    assert!(message.contains("\n  2. HEVY_API_KEY environment variable\n"));
}

#[test]
fn stored_key_is_read_from_the_configuration() {
    assert_eq!(stored_api_key("{\"api_key\":\"abc123\"}"), some("abc123"));
    assert_eq!(stored_api_key("{\n  \"api_key\": \"k\\\"q\"\n}"), some("k\"q"));
    assert_eq!(stored_api_key("{\"other\":1,\"api_key\":\"\"}"), some(""));
}

#[test]
fn configuration_without_a_key_has_none() {
    for text in ["", "{}", "[]", "abc123", "{\"api_key\":7}", "{\"api_key\":null}", "{\"apikey\":\"x\"}", "{\"api_key\":\"x\""] {
        assert_eq!(stored_api_key(text), None, "{}", text);
    }
}

#[test]
fn configuration_document_holds_the_key() {
    assert_eq!(config_document("abc123"), some("{\n  \"api_key\": \"abc123\"\n}"));
    assert_eq!(config_document(""), some("{\n  \"api_key\": \"\"\n}"));
    assert_eq!(config_document("a\"b\\c\n"), some("{\n  \"api_key\": \"a\\\"b\\\\c\\n\"\n}"));
}

#[test]
fn stored_key_survives_the_round_trip() {
    for key in ["abc123", "", "with \"quotes\" and \\ and \u{e9}\u{1f525}", "{\"api_key\":\"x\"}"] {
        let text = config_document(key).expect("a document");
        assert_eq!(stored_api_key(&text), some(key));
    }
}

#[test]
fn configuration_names() {
    assert_eq!(CONFIG_DIR, "hevy-bridge");
    assert_eq!(CONFIG_FILE, "config.json");
    assert_eq!(API_KEY_MEMBER, "api_key");
}
