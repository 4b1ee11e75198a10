use xingtui::model_turn::{as_str, get, parse_model_turn, read_arguments, tool_input, JsonValue};

fn is_empty_object(v: &JsonValue) -> bool {
    matches!(v, JsonValue::Object(members) if members.is_empty())
}

fn s(v: &str) -> JsonValue {
    JsonValue::Str(v.to_string())
}

fn obj(entries: Vec<(&str, JsonValue)>) -> JsonValue {
    JsonValue::Object(entries.into_iter().map(|(k, v)| (k.to_string(), v)).collect())
}

#[test]
fn parses_openai_compatible_tool_calls() {
    let body = obj(vec![(
        "choices",
        JsonValue::Array(vec![obj(vec![(
            "message",
            obj(vec![
                ("role", s("assistant")),
                ("content", JsonValue::Null),
                (
                    "tool_calls",
                    JsonValue::Array(vec![obj(vec![
                        ("id", s("call-1")),
                        ("type", s("function")),
                        (
                            "function",
                            obj(vec![
                                ("name", s("search_partners")),
                                ("arguments", s("{\"query\":\"找短视频推广方\"}")),
                            ]),
                        ),
                    ])]),
                ),
            ]),
        )])]),
    )]);
    let turn = parse_model_turn(&body).expect("valid model response");
    assert_eq!(turn.tool_calls.len(), 1);
    assert_eq!(turn.tool_calls[0].name, "search_partners");
    assert_eq!(
        as_str(get(&turn.tool_calls[0].arguments, "query")),
        Some("找短视频推广方")
    );
}

#[test]
fn rejects_empty_model_responses() {
    let body = obj(vec![(
        "choices",
        JsonValue::Array(vec![obj(vec![(
            "message",
            obj(vec![("role", s("assistant")), ("content", JsonValue::Null)]),
        )])]),
    )]);
    let result = parse_model_turn(&body);
    assert!(result.is_err());
}

#[test]
fn reports_a_missing_message() {
    let body = obj(vec![("choices", JsonValue::Array(vec![]))]);
    match parse_model_turn(&body) {
        Err(e) => assert_eq!(e, "model response has no message"),
        Ok(_) => panic!("a body without choices has no message"),
    }
    match parse_model_turn(&JsonValue::Null) {
        Err(e) => assert_eq!(e, "model response has no message"),
        Ok(_) => panic!("null has no message"),
    }
}

#[test]
fn keeps_text_and_skips_unreadable_tool_calls() {
    let body = obj(vec![(
        "choices",
        JsonValue::Array(vec![obj(vec![(
            "message",
            obj(vec![
                ("content", s("你好")),
                (
                    "tool_calls",
                    JsonValue::Array(vec![
                        obj(vec![("id", s("x"))]),
                        obj(vec![
                            ("id", s("call-2")),
                            ("function", obj(vec![("name", s("recommend_plans"))])),
                        ]),
                        obj(vec![
                            ("id", JsonValue::Number("3".into())),
                            ("function", obj(vec![("name", s("ignored"))])),
                        ]),
                    ]),
                ),
            ]),
        )])]),
    )]);
    let turn = parse_model_turn(&body).expect("text and one call");
    assert_eq!(turn.content.as_deref(), Some("你好"));
    assert_eq!(turn.tool_calls.len(), 1);
    assert_eq!(turn.tool_calls[0].id, "call-2");
    assert_eq!(turn.tool_calls[0].raw_arguments, "{}");
    assert!(is_empty_object(&turn.tool_calls[0].arguments));
}

#[test]
fn malformed_arguments_read_as_an_empty_object() {
    let body = obj(vec![(
        "choices",
        obj(vec![(
            "0",
            obj(vec![(
                "message",
                obj(vec![(
                    "tool_calls",
                    JsonValue::Array(vec![obj(vec![
                        ("id", s("c")),
                        (
                            "function",
                            obj(vec![("name", s("search_partners")), ("arguments", s("not json"))]),
                        ),
                    ])]),
                )]),
            )]),
        )]),
    )]);
    let turn = parse_model_turn(&body).expect("pointer reads member 0 of an object");
    assert_eq!(turn.tool_calls[0].raw_arguments, "not json");
    assert!(is_empty_object(&turn.tool_calls[0].arguments));
}

#[test]
fn arguments_are_read_as_json_documents() {
    let v = read_arguments("{\"limit\":3,\"tags\":[\"a\",true,null],\"q\":\"x\"}");
    assert!(matches!(get(&v, "limit"), Some(JsonValue::Number(n)) if n == "3"));
    assert_eq!(as_str(get(&v, "q")), Some("x"));
    match get(&v, "tags") {
        Some(JsonValue::Array(items)) => {
            assert_eq!(items.len(), 3);
            assert!(matches!(items[0], JsonValue::Str(ref t) if t == "a"));
            assert!(matches!(items[1], JsonValue::Bool(true)));
            assert!(matches!(items[2], JsonValue::Null));
        }
        _ => panic!("tags is an array"),
    }
    assert!(matches!(read_arguments("[1]"), JsonValue::Array(ref a) if a.len() == 1));
    assert!(is_empty_object(&read_arguments("{")));
}

#[test]
fn tool_input_keeps_objects_and_wraps_the_prompt_otherwise() {
    let kept = tool_input(read_arguments("{\"query\":\"a\"}"), "p");
    assert_eq!(as_str(get(&kept, "query")), Some("a"));
    let wrapped = tool_input(read_arguments("[1]"), "找伙伴");
    assert_eq!(as_str(get(&wrapped, "query")), Some("找伙伴"));
    match wrapped {
        JsonValue::Object(members) => assert_eq!(members.len(), 1),
        _ => panic!("an object"),
    }
}
