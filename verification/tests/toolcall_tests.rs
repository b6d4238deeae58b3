use aigis::toolcall::parse_tool_calls;

fn call_block(name: &str, args: &str) -> String {
    format!(
        "<\u{ff5c}tool\u{2581}call\u{2581}begin\u{ff5c}>function<\u{ff5c}tool\u{2581}sep\u{ff5c}>{}\n```json\n{}\n```<\u{ff5c}tool\u{2581}call\u{2581}end\u{ff5c}>",
        name, args
    )
}

#[test]
fn plain_text_has_no_calls() {
    assert!(parse_tool_calls("just some prose with ``` fences ``` and {braces}").is_empty());
    assert!(parse_tool_calls("").is_empty());
}

#[test]
fn one_call_parses_with_its_parts() {
    let text = format!("thinking...\n{}\ndone", call_block("calculator", "{\"expr\": \"2+2\"}"));
    let calls = parse_tool_calls(&text);
    assert_eq!(calls.len(), 1);
    assert_eq!(calls[0].tool_type, "function");
    assert_eq!(calls[0].tool_name, "calculator");
    assert_eq!(calls[0].tool_args, "{\"expr\": \"2+2\"}");
}

#[test]
fn several_calls_parse_in_order() {
    let text = format!(
        "{}{}",
        call_block("calculator", "{\"expr\": \"1\"}"),
        call_block("website", "{\"website\": \"https://example.com\"}")
    );
    let calls = parse_tool_calls(&text);
    assert_eq!(calls.len(), 2);
    assert_eq!(calls[0].tool_name, "calculator");
    assert_eq!(calls[1].tool_name, "website");
}

#[test]
fn invalid_json_arguments_yield_no_call() {
    let text = call_block("calculator", "{\"expr\": }");
    assert!(parse_tool_calls(&text).is_empty());
}

#[test]
fn malformed_block_is_skipped() {
    // begin marker without separator or fenced arguments
    let text = "<\u{ff5c}tool\u{2581}call\u{2581}begin\u{ff5c}>oops no structure";
    assert!(parse_tool_calls(text).is_empty());
    // a malformed block followed by a good one: the good one still parses
    let text2 = format!(
        "<\u{ff5c}tool\u{2581}call\u{2581}begin\u{ff5c}>broken {}",
        call_block("calculator", "{\"expr\": \"2\"}")
    );
    let calls = parse_tool_calls(&text2);
    assert_eq!(calls.len(), 1);
    assert_eq!(calls[0].tool_name, "calculator");
}

#[test]
fn empty_object_arguments_parse() {
    let text = call_block("website", "{}");
    let calls = parse_tool_calls(&text);
    assert_eq!(calls.len(), 1);
    assert_eq!(calls[0].tool_args, "{}");
}
