use gemini_rust::models::{
    Blob, Candidate, Content, GenerationResponse, Message, Part, Role, ThinkingConfig,
};
use gemini_rust::tools::{FunctionCall, FunctionResponse};

fn text_part(text: &str, thought: Option<bool>) -> Part {
    Part::Text { text: text.to_string(), thought }
}

fn call_part(name: &str) -> Part {
    Part::FunctionCall {
        function_call: FunctionCall { name: name.to_string(), args: serde_json::Value::Null },
    }
}

fn candidate(parts: Vec<Part>) -> Candidate {
    Candidate {
        content: Content { parts, role: Some(Role::Model) },
        safety_ratings: None,
        citation_metadata: None,
        finish_reason: None,
        index: None,
    }
}

fn response(candidates: Vec<Candidate>) -> GenerationResponse {
    GenerationResponse { candidates, prompt_feedback: None, usage_metadata: None }
}

fn sample_response() -> GenerationResponse {
    response(vec![
        candidate(vec![
            text_part("thinking...", Some(true)),
            call_part("get_weather"),
            text_part("It is sunny.", None),
        ]),
        candidate(vec![
            text_part("not a thought", Some(false)),
            call_part("get_time"),
            Part::InlineData { inline_data: Blob::new("image/png".to_string(), "AAAA".to_string()) },
            text_part("second thought", Some(true)),
        ]),
    ])
}

#[test]
fn blob_new_keeps_fields() {
    let b = Blob::new("text/plain".to_string(), "aGVsbG8=".to_string());
    assert_eq!(b.mime_type, "text/plain");
    assert_eq!(b.data, "aGVsbG8=");
}

#[test]
fn content_text_has_one_text_part_and_no_role() {
    let c = Content::text("hello".to_string());
    assert_eq!(c.parts.len(), 1);
    assert!(matches!(&c.parts[0], Part::Text { text, thought: None } if text == "hello"));
    assert!(c.role.is_none());
}

#[test]
fn content_default_is_empty() {
    let c = Content::default();
    assert!(c.parts.is_empty());
    assert!(c.role.is_none());
}

#[test]
fn content_function_call_wraps_the_call() {
    let c = Content::function_call(FunctionCall {
        name: "f".to_string(),
        args: serde_json::Value::Bool(true),
    });
    assert_eq!(c.parts.len(), 1);
    match &c.parts[0] {
        Part::FunctionCall { function_call } => {
            assert_eq!(function_call.name, "f");
            assert_eq!(function_call.args, serde_json::Value::Bool(true));
        }
        _ => panic!("expected a function call part"),
    }
    assert!(c.role.is_none());
}

#[test]
fn content_function_response_wraps_the_response() {
    let c = Content::function_response(FunctionResponse::new(
        "g".to_string(),
        serde_json::Value::String("ok".to_string()),
    ));
    assert_eq!(c.parts.len(), 1);
    match &c.parts[0] {
        Part::FunctionResponse { function_response } => {
            assert_eq!(function_response.name, "g");
            assert_eq!(function_response.response, serde_json::Value::String("ok".to_string()));
        }
        _ => panic!("expected a function response part"),
    }
}

#[test]
fn content_function_response_json_builds_the_response() {
    let c = Content::function_response_json("h".to_string(), serde_json::Value::from(42));
    assert_eq!(c.parts.len(), 1);
    match &c.parts[0] {
        Part::FunctionResponse { function_response } => {
            assert_eq!(function_response.name, "h");
            assert_eq!(function_response.response, serde_json::Value::from(42));
        }
        _ => panic!("expected a function response part"),
    }
    assert!(c.role.is_none());
}

#[test]
fn content_inline_data_holds_a_blob() {
    let c = Content::inline_data("image/jpeg".to_string(), "/9j/".to_string());
    assert_eq!(c.parts.len(), 1);
    match &c.parts[0] {
        Part::InlineData { inline_data } => {
            assert_eq!(inline_data.mime_type, "image/jpeg");
            assert_eq!(inline_data.data, "/9j/");
        }
        _ => panic!("expected an inline data part"),
    }
}

#[test]
fn with_role_sets_the_role_and_keeps_parts() {
    let c = Content::text("x".to_string()).with_role(Role::User);
    assert_eq!(c.role, Some(Role::User));
    assert_eq!(c.parts.len(), 1);
    let c = c.with_role(Role::Model);
    assert_eq!(c.role, Some(Role::Model));
    assert!(matches!(&c.parts[0], Part::Text { text, .. } if text == "x"));
}

#[test]
fn user_message_roles_agree() {
    let m = Message::user("hi".to_string());
    assert_eq!(m.role, Role::User);
    assert_eq!(m.content.role, Some(Role::User));
    assert!(matches!(&m.content.parts[..], [Part::Text { text, thought: None }] if text == "hi"));
}

#[test]
fn model_message_roles_agree() {
    let m = Message::model("hello".to_string());
    assert_eq!(m.role, Role::Model);
    assert_eq!(m.content.role, Some(Role::Model));
    assert!(matches!(&m.content.parts[..], [Part::Text { text, thought: None }] if text == "hello"));
}

#[test]
fn embed_message_content_has_no_role() {
    let m = Message::embed("embed me".to_string());
    assert_eq!(m.role, Role::Model);
    assert!(m.content.role.is_none());
    assert!(matches!(&m.content.parts[..], [Part::Text { text, thought: None }] if text == "embed me"));
}

#[test]
fn function_message_carries_the_response() {
    let value = serde_json::Value::Array(vec![serde_json::Value::from(1), serde_json::Value::from(2)]);
    let m = Message::function("sum".to_string(), value.clone());
    assert_eq!(m.role, Role::Model);
    assert_eq!(m.content.role, Some(Role::Model));
    match &m.content.parts[..] {
        [Part::FunctionResponse { function_response }] => {
            assert_eq!(function_response.name, "sum");
            assert_eq!(function_response.response, value);
        }
        _ => panic!("expected one function response part"),
    }
}

#[test]
fn function_str_parses_the_json_text() {
    let m = Message::function_str("weather".to_string(), "{\"temp\": 21, \"unit\": \"C\"}".to_string())
        .expect("valid JSON");
    let expected: serde_json::Value = serde_json::from_str("{\"unit\":\"C\",\"temp\":21}").unwrap();
    match &m.content.parts[..] {
        [Part::FunctionResponse { function_response }] => {
            assert_eq!(function_response.name, "weather");
            assert_eq!(function_response.response, expected);
            assert!(function_response.response.is_object());
        }
        _ => panic!("expected one function response part"),
    }
    assert_eq!(m.role, Role::Model);
    assert_eq!(m.content.role, Some(Role::Model));
}

#[test]
fn function_str_parses_a_number_not_a_string() {
    let m = Message::function_str("n".to_string(), "7".to_string()).unwrap();
    match &m.content.parts[..] {
        [Part::FunctionResponse { function_response }] => {
            assert_eq!(function_response.response, serde_json::Value::from(7));
        }
        _ => panic!("expected one function response part"),
    }
}

#[test]
fn function_str_rejects_invalid_json() {
    assert!(Message::function_str("bad".to_string(), "{not json".to_string()).is_err());
    assert!(Message::function_str("bad".to_string(), "1 2".to_string()).is_err());
    assert!(Message::function_str("bad".to_string(), "".to_string()).is_err());
}

#[test]
fn text_returns_first_part_of_first_candidate() {
    let r = response(vec![candidate(vec![text_part("first", None), text_part("second", None)])]);
    assert_eq!(r.text(), "first");
}

#[test]
fn text_includes_a_thought_when_it_comes_first() {
    assert_eq!(sample_response().text(), "thinking...");
}

#[test]
fn text_is_empty_without_candidates() {
    assert_eq!(response(vec![]).text(), "");
}

#[test]
fn text_is_empty_when_first_part_is_not_text() {
    let r = response(vec![candidate(vec![call_part("f"), text_part("later", None)])]);
    assert_eq!(r.text(), "");
}

#[test]
fn text_is_empty_when_first_candidate_has_no_parts() {
    let r = response(vec![candidate(vec![]), candidate(vec![text_part("other", None)])]);
    assert_eq!(r.text(), "");
}

#[test]
fn function_calls_in_order_across_candidates() {
    let r = sample_response();
    let calls = r.function_calls();
    let names: Vec<&str> = calls.iter().map(|c| c.name.as_str()).collect();
    assert_eq!(names, vec!["get_weather", "get_time"]);
}

#[test]
fn function_calls_empty_without_calls() {
    let r = response(vec![candidate(vec![text_part("a", None)])]);
    assert!(r.function_calls().is_empty());
}

#[test]
fn thoughts_only_marked_texts() {
    assert_eq!(sample_response().thoughts(), vec!["thinking...".to_string(), "second thought".to_string()]);
}

#[test]
fn all_text_with_flags() {
    assert_eq!(
        sample_response().all_text(),
        vec![
            ("thinking...".to_string(), true),
            ("It is sunny.".to_string(), false),
            ("not a thought".to_string(), false),
            ("second thought".to_string(), true),
        ]
    );
}

#[test]
fn thoughts_are_the_flagged_entries_of_all_text() {
    let r = sample_response();
    let flagged: Vec<String> = r.all_text().into_iter().filter(|(_, t)| *t).map(|(s, _)| s).collect();
    assert_eq!(r.thoughts(), flagged);
}

#[test]
fn text_is_first_entry_of_all_text() {
    let r = sample_response();
    assert_eq!(r.text(), r.all_text()[0].0);
}

#[test]
fn thinking_config_new_and_default_are_unset() {
    let c = ThinkingConfig::new();
    assert_eq!(c.thinking_budget, None);
    assert_eq!(c.include_thoughts, None);
    let d = ThinkingConfig::default();
    assert_eq!(d.thinking_budget, None);
    assert_eq!(d.include_thoughts, None);
}

#[test]
fn thinking_config_builders() {
    let c = ThinkingConfig::new().with_thinking_budget(1024).with_thoughts_included(true);
    assert_eq!(c.thinking_budget, Some(1024));
    assert_eq!(c.include_thoughts, Some(true));
    let c = c.with_thinking_budget(0);
    assert_eq!(c.thinking_budget, Some(0));
    assert_eq!(c.include_thoughts, Some(true));
}

#[test]
fn dynamic_thinking_is_budget_minus_one() {
    let c = ThinkingConfig::new().with_thoughts_included(false).with_dynamic_thinking();
    assert_eq!(c.thinking_budget, Some(-1));
    assert_eq!(c.include_thoughts, Some(false));
    let d = ThinkingConfig::new().with_thoughts_included(false).with_thinking_budget(-1);
    assert_eq!(c.thinking_budget, d.thinking_budget);
    assert_eq!(c.include_thoughts, d.include_thoughts);
}

#[test]
fn thinking_settings_commute() {
    let a = ThinkingConfig::new().with_thinking_budget(512).with_thoughts_included(true);
    let b = ThinkingConfig::new().with_thoughts_included(true).with_thinking_budget(512);
    assert_eq!(a.thinking_budget, b.thinking_budget);
    assert_eq!(a.include_thoughts, b.include_thoughts);
}

#[test]
fn function_str_hands_back_the_parse_error_of_its_text() {
    let text = "{\"a\": 1,\n  oops}";
    let err = Message::function_str("bad".to_string(), text.to_string()).unwrap_err();
    let expected = serde_json::from_str::<serde_json::Value>(text).unwrap_err();
    assert_eq!(err.to_string(), expected.to_string());
    assert_eq!(err.line(), 2);
    assert_eq!(err.column(), expected.column());
    assert_eq!(err.classify(), expected.classify());
}
