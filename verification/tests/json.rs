use hevy_bridge::json::{find_text, string_member, Member};

fn member(name: &str, text: Option<&str>) -> Member {
    Member { name: name.to_string(), text: text.map(|t| t.to_string()) }
}

#[test]
fn text_of_a_member_is_found_by_name() {
    let members = vec![
        member("id", None),
        member("workoutId", Some("w1")),
        member("title", Some("Morning")),
    ];
    assert_eq!(find_text(&members, "workoutId"), Some("w1".to_string()));
    assert_eq!(find_text(&members, "title"), Some("Morning".to_string()));
}

#[test]
fn member_that_is_missing_or_not_a_string_has_no_text() {
    let members = vec![member("id", None), member("workoutId", Some("w1"))];
    assert_eq!(find_text(&members, "id"), None);
    assert_eq!(find_text(&members, "workoutid"), None);
    assert_eq!(find_text(&members, ""), None);
    assert_eq!(find_text(&vec![], "workoutId"), None);
}

#[test]
fn first_member_of_a_name_decides() {
    let members = vec![member("a", Some("1")), member("a", Some("2")), member("b", None), member("b", Some("3"))];
    assert_eq!(find_text(&members, "a"), Some("1".to_string()));
    assert_eq!(find_text(&members, "b"), None);
}

#[test]
fn string_members_are_read_from_json_text() {
    let text = "{\"n\": 1, \"s\": \"text\", \"o\": {\"s\": \"inner\"}, \"e\": \"\", \"u\": \"\\u00e9\\n\"}";
    assert_eq!(string_member(text, "s"), Some("text".to_string()));
    assert_eq!(string_member(text, "e"), Some(String::new()));
    assert_eq!(string_member(text, "u"), Some("\u{e9}\n".to_string()));
    assert_eq!(string_member(text, "n"), None);
    assert_eq!(string_member(text, "o"), None);
    assert_eq!(string_member(text, "x"), None);
}

#[test]
fn text_that_is_no_json_object_has_no_members() {
    for text in ["", "null", "17", "\"s\"", "[{\"s\":\"text\"}]", "{\"s\":\"text\"", "{\"s\":\"text\"}}", "{s:\"text\"}"] {
        assert_eq!(string_member(text, "s"), None, "{}", text);
    }
}

#[test]
fn last_of_two_members_with_one_name_is_read() {
    assert_eq!(string_member("{\"s\":\"first\",\"s\":\"second\"}", "s"), Some("second".to_string()));
    assert_eq!(string_member("{\"s\":\"first\",\"s\":2}", "s"), None);
}
