use reminder_cli::deepseek::{
    advice_request, get_simple_advice, AdviceError, AdviceRequest, API_URL, MODEL,
    TEMPERATURE_PERCENT,
};
use reminder_cli::json::JsonValue;

fn text(s: &str) -> JsonValue {
    JsonValue::Text(s.to_string())
}

fn object(entries: Vec<(&str, JsonValue)>) -> JsonValue {
    JsonValue::Object(entries.into_iter().map(|(k, v)| (k.to_string(), v)).collect())
}

fn answer(content: JsonValue) -> JsonValue {
    object(vec![
        ("id", text("abc")),
        (
            "choices",
            JsonValue::Array(vec![
                object(vec![
                    ("index", JsonValue::Number("0".to_string())),
                    ("message", object(vec![("role", text("assistant")), ("content", content)])),
                ]),
                object(vec![("message", object(vec![("content", text("second choice"))]))]),
            ]),
        ),
    ])
}

#[test]
fn the_request_embeds_the_message_and_the_key() {
    assert_eq!(
        advice_request("sk-123", "call mum"),
        AdviceRequest {
            url: "https://api.deepseek.com/v1/chat/completions".to_string(),
            authorization: "Bearer sk-123".to_string(),
            model: "deepseek-chat".to_string(),
            role: "user".to_string(),
            prompt: "Please generate brief advice for this reminder: call mum".to_string(),
            temperature_percent: 50,
        }
    );
    assert_eq!(API_URL, "https://api.deepseek.com/v1/chat/completions");
    assert_eq!(MODEL, "deepseek-chat");
    assert_eq!(TEMPERATURE_PERCENT, 50);
}

#[test]
fn the_request_for_an_empty_message_is_the_bare_prompt() {
    let request = advice_request("", "");
    assert_eq!(request.authorization, "Bearer ");
    assert_eq!(request.prompt, "Please generate brief advice for this reminder: ");
}

#[test]
fn advice_is_the_content_of_the_first_choice() {
    assert_eq!(get_simple_advice(&answer(text("Ring her at noon."))), Ok("Ring her at noon.".to_string()));
    assert_eq!(get_simple_advice(&answer(text(""))), Ok("".to_string()));
}

#[test]
fn an_answer_without_choices_holds_no_advice() {
    assert_eq!(get_simple_advice(&object(vec![])), Err(AdviceError::MissingContent));
    assert_eq!(
        get_simple_advice(&object(vec![("choices", JsonValue::Array(vec![]))])),
        Err(AdviceError::MissingContent)
    );
    assert_eq!(
        get_simple_advice(&object(vec![("choices", text("none"))])),
        Err(AdviceError::MissingContent)
    );
    assert_eq!(
        get_simple_advice(&object(vec![("error", object(vec![("message", text("bad key"))]))])),
        Err(AdviceError::MissingContent)
    );
}

#[test]
fn an_answer_that_is_no_object_holds_no_advice() {
    assert_eq!(get_simple_advice(&JsonValue::Null), Err(AdviceError::MissingContent));
    assert_eq!(get_simple_advice(&text("hello")), Err(AdviceError::MissingContent));
    assert_eq!(get_simple_advice(&JsonValue::Array(vec![])), Err(AdviceError::MissingContent));
    assert_eq!(get_simple_advice(&JsonValue::Bool(true)), Err(AdviceError::MissingContent));
}

#[test]
fn content_that_is_no_text_is_no_advice() {
    assert_eq!(get_simple_advice(&answer(JsonValue::Null)), Err(AdviceError::MissingContent));
    assert_eq!(
        get_simple_advice(&answer(JsonValue::Number("5".to_string()))),
        Err(AdviceError::MissingContent)
    );
    assert_eq!(
        get_simple_advice(&answer(JsonValue::Array(vec![text("a")]))),
        Err(AdviceError::MissingContent)
    );
}

#[test]
fn a_choice_without_message_holds_no_advice() {
    let response = object(vec![(
        "choices",
        JsonValue::Array(vec![object(vec![("content", text("misplaced"))])]),
    )]);
    assert_eq!(get_simple_advice(&response), Err(AdviceError::MissingContent));
    let response = object(vec![(
        "choices",
        JsonValue::Array(vec![object(vec![("message", object(vec![("text", text("x"))]))])]),
    )]);
    assert_eq!(get_simple_advice(&response), Err(AdviceError::MissingContent));
}

#[test]
fn members_and_elements_are_found_where_they_are() {
    let value = object(vec![("a", text("one")), ("b", JsonValue::Bool(false)), ("a", text("two"))]);
    assert_eq!(value.get("a"), Some(&text("one")));
    assert_eq!(value.get("b"), Some(&JsonValue::Bool(false)));
    assert_eq!(value.get("c"), None);
    let holds_null = object(vec![("n", JsonValue::Null)]);
    assert_eq!(holds_null.get("n"), Some(&JsonValue::Null));
    assert_eq!(holds_null.get("m"), None);
    assert_eq!(value.get(""), None);
    assert_eq!(value.at(0), None);
    let list = JsonValue::Array(vec![text("x"), JsonValue::Null]);
    assert_eq!(list.at(0), Some(&text("x")));
    assert_eq!(list.at(1), Some(&JsonValue::Null));
    assert_eq!(list.at(2), None);
    assert_eq!(list.get("0"), None);
    assert_eq!(text("x").as_str(), Some("x"));
    assert_eq!(JsonValue::Number("1".to_string()).as_str(), None);
    assert_eq!(JsonValue::Null.as_str(), None);
}

#[test]
fn advice_errors_say_what_failed() {
    assert_eq!(AdviceError::Transport.message(), "Failed to send request to Deepseek API");
    assert_eq!(AdviceError::InvalidJson.message(), "Failed to parse API response as JSON");
    assert_eq!(
        AdviceError::MissingContent.message(),
        "Malformed API response: missing content field"
    );
}
