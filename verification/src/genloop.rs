//! The tool-augmented generation loop: the repetition guard deciding
//! whether a round of tool calls runs, the messages appended after a
//! round, and the post-processing of the final answer.

use vstd::prelude::*;

use crate::context::{assistant_message, tool_message, Message, Role};
use crate::text::{chars_of, copy_range, matches_at, matches_at_exec, push_str_chars, spec_trim, string_of, trim_chars};
use crate::toolcall::{spec_parse_tool_calls, parse_tool_calls, views_of_calls, SpecToolCall, ToolCall};

verus! {

/// Identical consecutive checked calls tolerated before the loop aborts.
pub const TOOL_CALL_TIMES: u32 = 3;

/// The repetition guard's state: the (name, arguments) pair of the last
/// checked first call, and how often it has been seen consecutively.
/// Arguments are carried as the argument object's source text, the form
/// the model emitted.
pub struct GenLoopState {
    pub last: Option<(String, String)>,
    pub times: u32,
}

/// The ghost view of the guard state.
pub ghost struct SpecLoopState {
    pub last: Option<(Seq<char>, Seq<char>)>,
    pub times: u32,
}

/// What the loop does with one model output.
pub enum LoopDecision {
    /// No tool call was found: the output is the final answer.
    Finish,
    /// The repetition threshold was reached: the output is the final
    /// answer and no further gateway call is made.
    Abort,
    /// Execute all parsed calls, in order, and request a follow-up.
    Execute(Vec<ToolCall>),
}

/// The kind of a decision, without its payload.
#[derive(Clone, Copy, Debug, PartialEq, Eq, Structural)]
pub enum LoopDecisionKind {
    Finish,
    Abort,
    Execute,
}

/// The ghost view of a guard state.
pub open spec fn state_view(st: GenLoopState) -> SpecLoopState {
    SpecLoopState {
        last: match st.last {
            Some(p) => Some((p.0@, p.1@)),
            None => None,
        },
        times: st.times,
    }
}

/// The first parsed call repeats the last checked pair exactly: the
/// same name and the same argument text. Arguments are compared by
/// their serialized form, a deliberately strict reading: an argument
/// object the model rewrites differently — even if it denotes the same
/// value — counts as a new pair and resets the count.
pub open spec fn spec_is_repeat(st: SpecLoopState, first: SpecToolCall) -> bool {
    match st.last {
        Some(p) => p.0 == first.name && p.1 == first.args,
        None => false,
    }
}

/// One transition of the repetition guard, given the calls parsed from
/// the model output. Only the first call of a batch is checked: an
/// identical consecutive pair raises the count and aborts at the
/// threshold; a new pair resets the count to one.
pub open spec fn spec_loop_step(st: SpecLoopState, calls: Seq<SpecToolCall>) -> (SpecLoopState, LoopDecisionKind) {
    if calls.len() == 0 {
        (st, LoopDecisionKind::Finish)
    } else {
        let first = calls[0];
        if spec_is_repeat(st, first) {
            if st.times >= TOOL_CALL_TIMES {
                (st, LoopDecisionKind::Abort)
            } else {
                (
                    SpecLoopState {
                        last: Some((first.name, first.args)),
                        times: (st.times + 1) as u32,
                    },
                    LoopDecisionKind::Execute,
                )
            }
        } else {
            (
                SpecLoopState { last: Some((first.name, first.args)), times: 1 },
                LoopDecisionKind::Execute,
            )
        }
    }
}

/// The guard state a turn starts in: nothing checked yet.
pub fn new_loop_state() -> (st: GenLoopState)
    ensures
        state_view(st) == (SpecLoopState { last: None, times: 0 }),
{
    GenLoopState { last: None, times: 0 }
}

/// Applies one model output to the repetition guard: parses its tool
/// calls and decides whether the loop finishes, aborts, or executes the
/// batch.
pub fn loop_step(state: &mut GenLoopState, output: &str) -> (d: LoopDecision)
    ensures
        ({
            let calls = spec_parse_tool_calls(output@);
            let (st2, kind) = spec_loop_step(state_view(*old(state)), calls);
            &&& state_view(*final(state)) == st2
            &&& match d {
                LoopDecision::Finish => kind == LoopDecisionKind::Finish,
                LoopDecision::Abort => kind == LoopDecisionKind::Abort,
                LoopDecision::Execute(cs) => kind == LoopDecisionKind::Execute && views_of_calls(
                    cs@,
                ) == calls,
            }
        }),
{
    let calls = parse_tool_calls(output);
    if calls.len() == 0 {
        proof {
            assert(views_of_calls(calls@).len() == 0);
        }
        return LoopDecision::Finish;
    }
    proof {
        assert(views_of_calls(calls@)[0] == (SpecToolCall {
            typ: calls@[0].tool_type@,
            name: calls@[0].tool_name@,
            args: calls@[0].tool_args@,
        }));
    }
    let repeat: bool = match &state.last {
        Some(p) => p.0.eq(&calls[0].tool_name) && p.1.eq(&calls[0].tool_args),
        None => false,
    };
    if repeat {
        if state.times >= TOOL_CALL_TIMES {
            return LoopDecision::Abort;
        }
        state.times = state.times + 1;
        state.last = Some((calls[0].tool_name.clone(), calls[0].tool_args.clone()));
        LoopDecision::Execute(calls)
    } else {
        state.times = 1;
        state.last = Some((calls[0].tool_name.clone(), calls[0].tool_args.clone()));
        LoopDecision::Execute(calls)
    }
}

/// Four consecutive outputs whose first parsed call is the identical
/// pair: starting from a fresh guard, the first three rounds execute
/// and the fourth aborts, so no further gateway call is made and the
/// fourth output stands as the final answer.
pub proof fn lemma_repeated_call_aborts(calls: Seq<SpecToolCall>)
    requires
        calls.len() > 0,
    ensures
        ({
            let st0 = SpecLoopState { last: None, times: 0 };
            let (st1, d1) = spec_loop_step(st0, calls);
            let (st2, d2) = spec_loop_step(st1, calls);
            let (st3, d3) = spec_loop_step(st2, calls);
            let (st4, d4) = spec_loop_step(st3, calls);
            &&& d1 == LoopDecisionKind::Execute && st1.times == 1
            &&& d2 == LoopDecisionKind::Execute && st2.times == 2
            &&& d3 == LoopDecisionKind::Execute && st3.times == 3
            &&& d4 == LoopDecisionKind::Abort && st4 == st3
        }),
{
}

/// The outcome of executing one tool call: the tool's name and its
/// serialized result, or an error description.
pub struct ToolOutcome {
    pub tool_name: String,
    pub result: Result<String, String>,
}

/// The text a tool outcome is fed back to the model as: the serialized
/// result on success, an "Error: " line on failure.
pub open spec fn spec_tool_result_text(o: ToolOutcome) -> Seq<char> {
    match o.result {
        Ok(v) => v@,
        Err(e) => "Error: "@ + e@,
    }
}

/// Renders the feedback text for one tool outcome.
pub fn tool_result_text(o: &ToolOutcome) -> (r: String)
    ensures
        r@ == spec_tool_result_text(*o),
{
    match &o.result {
        Ok(v) => {
            let mut out: Vec<char> = Vec::new();
            push_str_chars(&mut out, v.as_str());
            string_of(out.as_slice())
        }
        Err(e) => {
            let mut out: Vec<char> = Vec::new();
            push_str_chars(&mut out, "Error: ");
            push_str_chars(&mut out, e.as_str());
            assert(out@ =~= spec_tool_result_text(*o));
            string_of(out.as_slice())
        }
    }
}

/// Appends one executed round to the conversation: the model's
/// tool-call-bearing output as an assistant message, then one tool
/// message per executed call, in order, each carrying the tool's name
/// and its result or error text.
pub fn append_tool_round(
    messages: &mut Vec<Message>,
    assistant_output: String,
    results: Vec<ToolOutcome>,
)
    ensures
        final(messages)@.len() == old(messages)@.len() + 1 + results@.len(),
        forall|i: int| 0 <= i < old(messages)@.len() ==> final(messages)@[i] == old(messages)@[i],
        final(messages)@[old(messages)@.len() as int].role == Role::Assistant,
        final(messages)@[old(messages)@.len() as int].content == assistant_output,
        forall|i: int| 0 <= i < results@.len() ==> {
            let m = final(messages)@[old(messages)@.len() + 1 + i];
            &&& m.role == Role::Tool
            &&& (m.tool_name matches Some(n) && n == (#[trigger] results@[i]).tool_name)
            &&& m.content@ == spec_tool_result_text(results@[i])
        },
{
    let ghost base = messages@.len() as int;
    let ghost ao = assistant_output;
    messages.push(assistant_message(assistant_output));
    let ghost orig = results@;
    let mut rest = results;
    proof {
        assert(orig.skip(0) =~= orig);
    }
    while rest.len() > 0
        invariant
            0 <= base,
            rest@.len() <= orig.len(),
            rest@ == orig.skip(orig.len() - rest@.len()),
            messages@.len() == base + 1 + (orig.len() - rest@.len()),
            forall|i: int| 0 <= i < base ==> messages@[i] == old(messages)@[i],
            messages@[base].role == Role::Assistant,
            messages@[base].content == ao,
            forall|i: int| 0 <= i < orig.len() - rest@.len() ==> {
                let m = messages@[base + 1 + i];
                &&& m.role == Role::Tool
                &&& (m.tool_name matches Some(n) && n == (#[trigger] orig[i]).tool_name)
                &&& m.content@ == spec_tool_result_text(orig[i])
            },
        decreases rest@.len(),
    {
        let ghost k = orig.len() - rest@.len();
        let ghost rest0 = rest@;
        let o = rest.remove(0);
        proof {
            assert(o == orig[k]);
            assert(rest0.drop_first() =~= orig.skip(k + 1));
        }
        let text = tool_result_text(&o);
        messages.push(tool_message(o.tool_name, text));
    }
}

/// The reasoning delimiter separating deliberation from the answer.
pub open spec fn think_end_marker() -> Seq<char> {
    seq!['<', '/', 't', 'h', 'i', 'n', 'k', '>']
}

fn think_end_chars() -> (r: Vec<char>)
    ensures
        r@ == think_end_marker(),
{
    let mut v: Vec<char> = Vec::new();
    v.push('<');
    v.push('/');
    v.push('t');
    v.push('h');
    v.push('i');
    v.push('n');
    v.push('k');
    v.push('>');
    proof {
        assert(v@ =~= think_end_marker());
    }
    v
}

/// Start of the last occurrence of the reasoning delimiter before
/// position `upto`, if any.
pub open spec fn last_marker_before(s: Seq<char>, upto: int) -> Option<int>
    decreases upto,
{
    if upto <= 0 {
        None
    } else if matches_at(s, think_end_marker(), upto - 1) {
        Some(upto - 1)
    } else {
        last_marker_before(s, upto - 1)
    }
}

/// The final answer distilled from a model output: the text after the
/// last occurrence of the reasoning delimiter — or the whole text when
/// the delimiter does not occur — trimmed of surrounding whitespace.
pub open spec fn spec_final_answer(s: Seq<char>) -> Seq<char> {
    match last_marker_before(s, s.len() as int) {
        None => spec_trim(s),
        Some(i) => spec_trim(s.subrange(i + think_end_marker().len(), s.len() as int)),
    }
}

/// Distills the final answer from a model output: keeps only the text
/// after the last reasoning delimiter and trims it.
pub fn strip_reasoning(text: &str) -> (r: String)
    ensures
        r@ == spec_final_answer(text@),
{
    let sv = chars_of(text);
    let s = sv.as_slice();
    let m = think_end_chars();
    let n = s.len();
    let mut j: usize = n;
    while j > 0
        invariant
            j <= n,
            n == s@.len(),
            s@ == text@,
            m@ == think_end_marker(),
            last_marker_before(s@, n as int) == last_marker_before(s@, j as int),
        decreases j,
    {
        if matches_at_exec(s, m.as_slice(), j - 1) {
            proof {
                assert(last_marker_before(s@, j as int) == Some(j - 1 as int));
                assert(j - 1 + think_end_marker().len() <= n);
            }
            let sub = copy_range(s, j - 1 + 8, n);
            let trimmed = trim_chars(sub.as_slice());
            let r = string_of(trimmed.as_slice());
            proof {
                assert(r@ == spec_trim(s@.subrange(j - 1 + 8, n as int)));
            }
            return r;
        }
        j = j - 1;
    }
    let trimmed = trim_chars(s);
    string_of(trimmed.as_slice())
}

} // verus!
