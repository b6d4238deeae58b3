use aigis::context::{user_message, Role};
use aigis::genloop::{
    append_tool_round, new_loop_state, loop_step, strip_reasoning, tool_result_text, LoopDecision,
    ToolOutcome,
};

fn call_output(name: &str, args: &str) -> String {
    format!(
        "<\u{ff5c}tool\u{2581}call\u{2581}begin\u{ff5c}>function<\u{ff5c}tool\u{2581}sep\u{ff5c}>{}\n```json\n{}\n```<\u{ff5c}tool\u{2581}call\u{2581}end\u{ff5c}>",
        name, args
    )
}

#[test]
fn plain_output_finishes_the_loop() {
    let mut st = new_loop_state();
    let d = loop_step(&mut st, "here is your answer");
    assert!(matches!(d, LoopDecision::Finish));
}

#[test]
fn fourth_identical_call_aborts_without_another_round() {
    let output = call_output("calculator", "{\"expr\": \"2+2\"}");
    let mut st = new_loop_state();
    assert!(matches!(loop_step(&mut st, &output), LoopDecision::Execute(_)));
    assert!(matches!(loop_step(&mut st, &output), LoopDecision::Execute(_)));
    assert!(matches!(loop_step(&mut st, &output), LoopDecision::Execute(_)));
    // the fourth occurrence of the identical (name, arguments) pair
    assert!(matches!(loop_step(&mut st, &output), LoopDecision::Abort));
}

#[test]
fn changed_arguments_reset_the_repetition_count() {
    let a = call_output("calculator", "{\"expr\": \"2+2\"}");
    let b = call_output("calculator", "{\"expr\": \"3+3\"}");
    let mut st = new_loop_state();
    assert!(matches!(loop_step(&mut st, &a), LoopDecision::Execute(_)));
    assert!(matches!(loop_step(&mut st, &a), LoopDecision::Execute(_)));
    assert!(matches!(loop_step(&mut st, &b), LoopDecision::Execute(_)));
    assert!(matches!(loop_step(&mut st, &a), LoopDecision::Execute(_)));
    assert!(matches!(loop_step(&mut st, &a), LoopDecision::Execute(_)));
    assert!(matches!(loop_step(&mut st, &a), LoopDecision::Execute(_)));
    assert!(matches!(loop_step(&mut st, &a), LoopDecision::Abort));
}

#[test]
fn execute_hands_back_all_parsed_calls() {
    let output = format!(
        "{}{}",
        call_output("calculator", "{\"expr\": \"1\"}"),
        call_output("website", "{\"website\": \"https://example.com\"}")
    );
    let mut st = new_loop_state();
    match loop_step(&mut st, &output) {
        LoopDecision::Execute(calls) => {
            assert_eq!(calls.len(), 2);
            assert_eq!(calls[0].tool_name, "calculator");
            assert_eq!(calls[1].tool_name, "website");
        }
        _ => panic!("expected an executed batch"),
    }
}

#[test]
fn reasoning_is_stripped_from_the_answer() {
    assert_eq!(strip_reasoning("<think>...</think> actual reply"), "actual reply");
    assert_eq!(strip_reasoning("no delimiter here"), "no delimiter here");
    assert_eq!(
        strip_reasoning("<think>a</think>mid</think>  final words \n"),
        "final words"
    );
    assert_eq!(strip_reasoning("<think>only thoughts</think>   "), "");
    assert_eq!(strip_reasoning("  padded  "), "padded");
    // trimming covers the whole Unicode white-space set
    assert_eq!(strip_reasoning("\u{a0}\u{2009}spaced\u{3000}"), "spaced");
}

#[test]
fn tool_errors_are_fed_back_as_error_lines() {
    let ok = ToolOutcome { tool_name: "calculator".to_string(), result: Ok("4".to_string()) };
    let bad = ToolOutcome {
        tool_name: "website".to_string(),
        result: Err("Tool not found".to_string()),
    };
    assert_eq!(tool_result_text(&ok), "4");
    assert_eq!(tool_result_text(&bad), "Error: Tool not found");
}

#[test]
fn tool_round_appends_assistant_then_results() {
    let mut msgs = vec![user_message("hi".to_string())];
    let results = vec![
        ToolOutcome { tool_name: "calculator".to_string(), result: Ok("4".to_string()) },
        ToolOutcome { tool_name: "missing".to_string(), result: Err("Tool not found".to_string()) },
    ];
    append_tool_round(&mut msgs, "calling tools".to_string(), results);
    assert_eq!(msgs.len(), 4);
    assert_eq!(msgs[1].role, Role::Assistant);
    assert_eq!(msgs[1].content, "calling tools");
    assert_eq!(msgs[2].role, Role::Tool);
    assert_eq!(msgs[2].tool_name.as_deref(), Some("calculator"));
    assert_eq!(msgs[2].content, "4");
    assert_eq!(msgs[3].content, "Error: Tool not found");
}
