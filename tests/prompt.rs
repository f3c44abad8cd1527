use wallpaper_generator::error::{ResponseField, WallpaperError};
use wallpaper_generator::json::{JsonMember, JsonValue};
use wallpaper_generator::prompt::{
    chat_reply_content, combined_keywords, join_keywords, prompt_message, prompt_request_body,
};

const INSTRUCTION: &str =
    "Create a short 100 word max prompt for generating a wallpaper using these keywords: ";

fn strings(v: &[&str]) -> Vec<String> {
    v.iter().map(|s| s.to_string()).collect()
}

fn member<'a>(v: &'a JsonValue, key: &str) -> &'a JsonValue {
    v.get(&key.to_string()).expect("member present")
}

fn object(members: Vec<(&str, JsonValue)>) -> JsonValue {
    JsonValue::Object(
        members
            .into_iter()
            .map(|(k, v)| JsonMember { key: k.to_string(), value: v })
            .collect(),
    )
}

#[test]
fn keywords_are_joined_with_comma_space() {
    assert_eq!(join_keywords(&strings(&["forest", "mist", "dawn"])), "forest, mist, dawn");
    assert_eq!(join_keywords(&strings(&["one"])), "one");
    assert_eq!(join_keywords(&strings(&[])), "");
}

#[test]
fn message_embeds_every_keyword() {
    let kws = strings(&["neon", "city", "rain"]);
    let m = prompt_message(&kws);
    assert_eq!(m, format!("{}neon, city, rain", INSTRUCTION));
    for k in &kws {
        assert!(m.contains(k.as_str()));
    }
}

#[test]
fn empty_keywords_still_give_a_message() {
    let m = prompt_message(&Vec::new());
    assert_eq!(m, INSTRUCTION);
    assert!(!m.is_empty());
}

#[test]
fn chat_request_has_model_and_one_user_message() {
    let body = prompt_request_body(&"gpt-x".to_string(), &strings(&["a", "b"]));
    assert_eq!(member(&body, "model").as_str().unwrap(), "gpt-x");
    let msg = member(&body, "messages").at(0).unwrap();
    assert!(member(&body, "messages").at(1).is_none());
    assert_eq!(member(msg, "role").as_str().unwrap(), "user");
    assert_eq!(member(msg, "content").as_str().unwrap(), &format!("{}a, b", INSTRUCTION));
}

#[test]
fn chat_reply_content_is_read() {
    let resp = object(vec![(
        "choices",
        JsonValue::Array(vec![object(vec![(
            "message",
            object(vec![("role", JsonValue::Str("assistant".to_string())), (
                "content",
                JsonValue::Str("A misty forest at dawn".to_string()),
            )]),
        )])]),
    )]);
    assert_eq!(chat_reply_content(&resp), Ok("A misty forest at dawn".to_string()));
}

#[test]
fn chat_reply_without_choices_is_malformed() {
    let malformed = Err(WallpaperError::MalformedResponse(ResponseField::ChatContent));
    assert_eq!(chat_reply_content(&object(vec![])), malformed);
    let empty = object(vec![("choices", JsonValue::Array(vec![]))]);
    assert_eq!(chat_reply_content(&empty), malformed);
    let numeric = object(vec![(
        "choices",
        JsonValue::Array(vec![object(vec![(
            "message",
            object(vec![("content", JsonValue::Number("1".to_string()))]),
        )])]),
    )]);
    assert_eq!(chat_reply_content(&numeric), malformed);
}

#[test]
fn cli_keywords_come_before_defaults() {
    let r = combined_keywords(&strings(&["x"]), &strings(&["d1", "d2"]));
    assert_eq!(r, strings(&["x", "d1", "d2"]));
    assert_eq!(combined_keywords(&strings(&[]), &strings(&[])), strings(&[]));
}

#[test]
fn lookup_takes_first_matching_member() {
    let v = object(vec![
        ("k", JsonValue::Str("first".to_string())),
        ("k", JsonValue::Str("second".to_string())),
    ]);
    assert_eq!(member(&v, "k").as_str().unwrap(), "first");
    assert!(v.get(&"absent".to_string()).is_none());
    assert!(JsonValue::Null.get(&"k".to_string()).is_none());
}
