//! Decision logic of the interactive terminal front end: rewriting
//! Markdown links as terminal hyperlinks, classifying streamed output
//! lines, deciding when a buffered block is rendered, and dispatching
//! slash commands.

use vstd::prelude::*;

use crate::text::{
    chars_of, copy_range, matches_at, matches_at_exec, push_all, push_str_chars, spec_trim,
    str_eq, string_of, trim_chars, trim_front,
};
use crate::relevance::spec_contains;

verus! {

/// A Markdown link `[text](url)` starting at position `i`: the text and
/// URL spans and the position after the closing parenthesis. The text
/// runs to the first closing bracket and must not be empty; the URL
/// runs to the first closing parenthesis and must not be empty.
pub open spec fn link_at(s: Seq<char>, i: int) -> Option<(int, int, int)> {
    let rb = scan_for(s, ']', i + 1);
    let rp = scan_for(s, ')', rb + 2);
    if 0 <= i < s.len() && s[i] == '[' && rb > i + 1 && rb < s.len() && rb + 1 < s.len() && s[rb
        + 1] == '(' && rp > rb + 2 && rp < s.len() {
        Some((rb, rp, rp + 1))
    } else {
        None
    }
}

/// Position of the first occurrence of `c` at or after `i`, or the
/// length of `s`.
pub open spec fn scan_for(s: Seq<char>, c: char, i: int) -> int
    decreases s.len() - i,
{
    if i < 0 || i >= s.len() {
        s.len() as int
    } else if s[i] == c {
        i
    } else {
        scan_for(s, c, i + 1)
    }
}

proof fn lemma_scan_for_bounds(s: Seq<char>, c: char, i: int)
    requires
        0 <= i <= s.len(),
    ensures
        i <= scan_for(s, c, i) <= s.len(),
    decreases s.len() - i,
{
    if !(i < 0 || i >= s.len()) && s[i] != c {
        lemma_scan_for_bounds(s, c, i + 1);
    }
}

fn scan_for_exec(s: &[char], c: char, i: usize) -> (r: usize)
    requires
        i <= s@.len(),
    ensures
        r == scan_for(s@, c, i as int),
        i <= r <= s@.len(),
{
    let n = s.len();
    let mut j: usize = i;
    while j < n && s[j] != c
        invariant
            i <= j <= n,
            n == s@.len(),
            scan_for(s@, c, i as int) == scan_for(s@, c, j as int),
        decreases n - j,
    {
        j = j + 1;
    }
    j
}

/// The terminal hyperlink rendering of one link.
pub open spec fn spec_osc8_link(text: Seq<char>, url: Seq<char>) -> Seq<char> {
    seq!['\u{1b}', ']', '8', ';', ';'] + url + seq!['\u{1b}', '\\'] + text + seq![
        '\u{1b}', ']', '8', ';', ';', '\u{1b}', '\\',
    ]
}

/// The input with every Markdown link `[text](url)` replaced by its
/// terminal hyperlink form, scanning left to right; everything else is
/// copied unchanged.
pub open spec fn spec_osc8_rewrite(s: Seq<char>, i: int) -> Seq<char>
    decreases s.len() - i,
    via spec_osc8_rewrite_decreases
{
    if i < 0 || i >= s.len() {
        Seq::<char>::empty()
    } else {
        match link_at(s, i) {
            Some(spans) => spec_osc8_link(s.subrange(i + 1, spans.0), s.subrange(spans.0 + 2, spans.1))
                + spec_osc8_rewrite(s, spans.2),
            None => seq![s[i]] + spec_osc8_rewrite(s, i + 1),
        }
    }
}

#[via_fn]
proof fn spec_osc8_rewrite_decreases(s: Seq<char>, i: int) {
    if 0 <= i < s.len() {
        lemma_scan_for_bounds(s, ']', i + 1);
        let rb = scan_for(s, ']', i + 1);
        if rb + 2 <= s.len() {
            lemma_scan_for_bounds(s, ')', rb + 2);
        }
    }
}

/// Rewrites Markdown links as terminal hyperlinks for supported
/// terminals.
pub fn add_osc8_hyperlinks(input: &str) -> (r: String)
    ensures
        r@ == spec_osc8_rewrite(input@, 0),
{
    let sv = chars_of(input);
    let s = sv.as_slice();
    let n = s.len();
    let mut out: Vec<char> = Vec::new();
    let mut i: usize = 0;
    while i < n
        invariant
            i <= n,
            n == s@.len(),
            s@ == input@,
            spec_osc8_rewrite(input@, 0) =~= out@ + spec_osc8_rewrite(s@, i as int),
        decreases n - i,
    {
        let ghost out0 = out@;
        let ghost i0 = i as int;
        if s[i] == '[' {
            let rb = scan_for_exec(s, ']', i + 1);
            let first_ok = rb > i + 1 && rb < n && rb + 1 < n && s[rb + 1] == '(';
            if first_ok {
                let rp = scan_for_exec(s, ')', rb + 2);
                if rp > rb + 2 && rp < n {
                    proof {
                        assert(link_at(s@, i0) == Some((rb as int, rp as int, rp + 1)));
                    }
                    let text = copy_range(s, i + 1, rb);
                    let url = copy_range(s, rb + 2, rp);
                    out.push('\u{1b}');
                    out.push(']');
                    out.push('8');
                    out.push(';');
                    out.push(';');
                    push_all(&mut out, url.as_slice());
                    out.push('\u{1b}');
                    out.push('\\');
                    push_all(&mut out, text.as_slice());
                    out.push('\u{1b}');
                    out.push(']');
                    out.push('8');
                    out.push(';');
                    out.push(';');
                    out.push('\u{1b}');
                    out.push('\\');
                    proof {
                        assert(out@ =~= out0 + spec_osc8_link(
                            s@.subrange(i0 + 1, rb as int),
                            s@.subrange(rb + 2, rp as int),
                        ));
                    }
                    i = rp + 1;
                } else {
                    proof {
                        assert(link_at(s@, i0) is None);
                        assert(out0.push(s@[i0]) =~= out0 + seq![s@[i0]]);
                    }
                    out.push(s[i]);
                    i = i + 1;
                }
            } else {
                proof {
                    assert(link_at(s@, i0) is None);
                    assert(out0.push(s@[i0]) =~= out0 + seq![s@[i0]]);
                }
                out.push(s[i]);
                i = i + 1;
            }
        } else {
            proof {
                assert(link_at(s@, i0) is None);
                assert(out0.push(s@[i0]) =~= out0 + seq![s@[i0]]);
            }
            out.push(s[i]);
            i = i + 1;
        }
    }
    proof {
        assert(spec_osc8_rewrite(s@, n as int) =~= Seq::<char>::empty());
    }
    string_of(out.as_slice())
}

/// A streamed line that opens or closes a fenced code block.
pub open spec fn spec_is_code_fence(line: Seq<char>) -> bool {
    matches_at(trim_front(line), seq!['`', '`', '`'], 0)
}

/// A streamed line that belongs to a list: a bullet, or an ordered item
/// beginning with a digit and containing ". ".
pub open spec fn spec_is_list_line(line: Seq<char>) -> bool {
    let t = trim_front(line);
    matches_at(t, seq!['-', ' '], 0) || matches_at(t, seq!['*', ' '], 0) || matches_at(
        t,
        seq!['+', ' '],
        0,
    ) || (t.len() > 0 && '0' <= t[0] && t[0] <= '9' && spec_contains(t, seq!['.', ' ']))
}

/// A streamed line that belongs to a table rule: it contains both a
/// pipe and a horizontal rule.
pub open spec fn spec_is_table_line(line: Seq<char>) -> bool {
    spec_contains(line, seq!['|']) && spec_contains(line, seq!['-', '-', '-'])
}

fn trim_front_exec(s: &[char]) -> (r: Vec<char>)
    ensures
        r@ == trim_front(s@),
{
    let n = s.len();
    proof {
        assert(s@.skip(0) =~= s@);
    }
    let mut lo: usize = 0;
    while lo < n && crate::text::is_space_exec(s[lo])
        invariant
            lo <= n,
            n == s@.len(),
            trim_front(s@) == trim_front(s@.skip(lo as int)),
        decreases n - lo,
    {
        proof {
            assert(s@.skip(lo as int).drop_first() =~= s@.skip(lo + 1));
        }
        lo = lo + 1;
    }
    proof {
        if lo < n {
            assert(trim_front(s@.skip(lo as int)) == s@.skip(lo as int));
        } else {
            assert(s@.skip(lo as int) =~= Seq::<char>::empty());
        }
        assert(s@.subrange(lo as int, n as int) =~= s@.skip(lo as int));
    }
    copy_range(s, lo, n)
}

fn contains_chars(s: &[char], pat: &[char]) -> (r: bool)
    ensures
        r == spec_contains(s@, pat@),
{
    match crate::text::find_from(s, pat, 0) {
        Some(_) => {
            proof {
                crate::text::lemma_find_seq_bounds(s@, pat@, 0);
            }
            true
        }
        None => {
            proof {
                crate::relevance::lemma_find_seq_complete(s@, pat@, 0);
            }
            false
        }
    }
}

/// Classifies a streamed line as a code fence.
pub fn is_code_fence(line: &str) -> (r: bool)
    ensures
        r == spec_is_code_fence(line@),
{
    let lv = chars_of(line);
    let t = trim_front_exec(lv.as_slice());
    let mut fence: Vec<char> = Vec::new();
    fence.push('`');
    fence.push('`');
    fence.push('`');
    proof {
        assert(fence@ =~= seq!['`', '`', '`']);
    }
    matches_at_exec(t.as_slice(), fence.as_slice(), 0)
}

/// Classifies a streamed line as part of a list.
pub fn is_list_line(line: &str) -> (r: bool)
    ensures
        r == spec_is_list_line(line@),
{
    let lv = chars_of(line);
    let t = trim_front_exec(lv.as_slice());
    let ts = t.as_slice();
    let mut dash: Vec<char> = Vec::new();
    dash.push('-');
    dash.push(' ');
    let mut star: Vec<char> = Vec::new();
    star.push('*');
    star.push(' ');
    let mut plus: Vec<char> = Vec::new();
    plus.push('+');
    plus.push(' ');
    let mut dot: Vec<char> = Vec::new();
    dot.push('.');
    dot.push(' ');
    proof {
        assert(dash@ =~= seq!['-', ' ']);
        assert(star@ =~= seq!['*', ' ']);
        assert(plus@ =~= seq!['+', ' ']);
        assert(dot@ =~= seq!['.', ' ']);
    }
    if matches_at_exec(ts, dash.as_slice(), 0) || matches_at_exec(ts, star.as_slice(), 0)
        || matches_at_exec(ts, plus.as_slice(), 0) {
        return true;
    }
    t.len() > 0 && '0' <= ts[0] && ts[0] <= '9' && contains_chars(ts, dot.as_slice())
}

/// Classifies a streamed line as part of a table.
pub fn is_table_line(line: &str) -> (r: bool)
    ensures
        r == spec_is_table_line(line@),
{
    let lv = chars_of(line);
    let ls = lv.as_slice();
    let mut pipe: Vec<char> = Vec::new();
    pipe.push('|');
    let mut rule: Vec<char> = Vec::new();
    rule.push('-');
    rule.push('-');
    rule.push('-');
    proof {
        assert(pipe@ =~= seq!['|']);
        assert(rule@ =~= seq!['-', '-', '-']);
    }
    contains_chars(ls, pipe.as_slice()) && contains_chars(ls, rule.as_slice())
}

/// The buffering state of the streaming renderer.
pub struct RenderState {
    pub in_code: bool,
    pub in_list: bool,
    pub in_table: bool,
    pub buffer: String,
}

/// What the renderer does with a finished line: emit the buffered block
/// (including this line) for rendering, or keep buffering.
pub enum RenderAction {
    Emit(String),
    Buffered,
}

/// The renderer's flag transition and emission decision for one line.
/// Mirrors the block structure of streamed Markdown: a closing code
/// fence, a blank line ending a list or table, or a blank line ending a
/// paragraph emits the buffered block; everything else buffers.
pub open spec fn spec_render_step(
    in_code: bool,
    in_list: bool,
    in_table: bool,
    line: Seq<char>,
) -> (bool, bool, bool, bool) {
    let blank = spec_trim(line).len() == 0;
    if spec_is_code_fence(line) {
        (!in_code, in_list, in_table, in_code)
    } else if spec_is_list_line(line) {
        (in_code, true, in_table, false)
    } else if in_list && blank {
        (in_code, false, in_table, true)
    } else if spec_is_table_line(line) {
        (in_code, in_list, true, false)
    } else if in_table && blank {
        (in_code, in_list, false, true)
    } else if !in_code && !in_list && !in_table && blank {
        (in_code, in_list, in_table, true)
    } else {
        (in_code, in_list, in_table, false)
    }
}

/// Feeds one finished line to the renderer: appends it to the buffer
/// and decides whether the buffered block is emitted now.
pub fn render_line_step(st: RenderState, line: &str) -> (r: (RenderState, RenderAction))
    ensures
        ({
            let (c2, l2, t2, emits) = spec_render_step(st.in_code, st.in_list, st.in_table, line@);
            &&& r.0.in_code == c2
            &&& r.0.in_list == l2
            &&& r.0.in_table == t2
            &&& (emits ==> (r.1 matches RenderAction::Emit(e) && e@ == st.buffer@ + line@
                && r.0.buffer@ == Seq::<char>::empty()))
            &&& (!emits ==> (r.1 is Buffered && r.0.buffer@ == st.buffer@ + line@))
        }),
{
    let RenderState { in_code, in_list, in_table, buffer } = st;
    let mut buf: Vec<char> = Vec::new();
    push_str_chars(&mut buf, buffer.as_str());
    push_str_chars(&mut buf, line);
    let full = string_of(buf.as_slice());
    let lv = chars_of(line);
    let blank = trim_chars(lv.as_slice()).len() == 0;
    if is_code_fence(line) {
        if in_code {
            (
                RenderState { in_code: false, in_list, in_table, buffer: String::new() },
                RenderAction::Emit(full),
            )
        } else {
            (RenderState { in_code: true, in_list, in_table, buffer: full }, RenderAction::Buffered)
        }
    } else if is_list_line(line) {
        (RenderState { in_code, in_list: true, in_table, buffer: full }, RenderAction::Buffered)
    } else if in_list && blank {
        (
            RenderState { in_code, in_list: false, in_table, buffer: String::new() },
            RenderAction::Emit(full),
        )
    } else if is_table_line(line) {
        (RenderState { in_code, in_list, in_table: true, buffer: full }, RenderAction::Buffered)
    } else if in_table && blank {
        (
            RenderState { in_code, in_list, in_table: false, buffer: String::new() },
            RenderAction::Emit(full),
        )
    } else if !in_code && !in_list && !in_table && blank {
        (
            RenderState { in_code, in_list, in_table, buffer: String::new() },
            RenderAction::Emit(full),
        )
    } else {
        (RenderState { in_code, in_list, in_table, buffer: full }, RenderAction::Buffered)
    }
}

/// A command read at the prompt.
pub enum CliCommand {
    /// Leave the session.
    Exit,
    /// Show the command help.
    Help,
    /// Replace the system prompt with the given text.
    SetPrompt(String),
    /// List the registered tools.
    ListTools,
    /// An unrecognized slash command.
    Unknown,
    /// An ordinary chat message.
    Chat(String),
}

/// Dispatches one line read at the prompt: "exit" leaves, a leading
/// slash selects a command ("help", "list_tools", "exit", or
/// "set_prompt " followed by the new prompt), and anything else is a
/// chat message. The input is expected already trimmed by the caller.
pub fn parse_cli_command(input: &str) -> (r: CliCommand)
    ensures
        input@ == "exit"@ ==> r is Exit,
        input@ != "exit"@ && input@.len() > 0 && input@[0] == '/' ==> {
            let cmd = spec_trim(input@.skip(1));
            &&& (cmd == "help"@ ==> r is Help)
            &&& (cmd == "list_tools"@ ==> r is ListTools)
            &&& (cmd == "exit"@ ==> r is Exit)
            &&& (cmd != "help"@ && cmd != "list_tools"@ && cmd != "exit"@ && matches_at(
                cmd,
                "set_prompt "@,
                0,
            ) ==> (r matches CliCommand::SetPrompt(p) && p@ == cmd.skip("set_prompt "@.len() as int)))
            &&& (cmd != "help"@ && cmd != "list_tools"@ && cmd != "exit"@ && !matches_at(
                cmd,
                "set_prompt "@,
                0,
            ) ==> r is Unknown)
        },
        input@ != "exit"@ && !(input@.len() > 0 && input@[0] == '/') ==> (r
            matches CliCommand::Chat(m) && m@ == input@),
{
    proof {
        reveal_strlit("exit");
        reveal_strlit("help");
        reveal_strlit("list_tools");
        reveal_strlit("set_prompt ");
        assert("exit"@.len() == 4);
        assert("help"@.len() == 4);
        assert("list_tools"@.len() == 10);
        assert("set_prompt "@.len() == 11);
        assert("help"@[0] == 'h' && "exit"@[0] == 'e');
    }
    if str_eq(input, "exit") {
        return CliCommand::Exit;
    }
    let iv = chars_of(input);
    let is = iv.as_slice();
    if is.len() > 0 && is[0] == '/' {
        let rest = copy_range(is, 1, is.len());
        proof {
            assert(rest@ =~= input@.skip(1));
        }
        let cmd = trim_chars(rest.as_slice());
        let cmd_str = string_of(cmd.as_slice());
        if str_eq(cmd_str.as_str(), "help") {
            CliCommand::Help
        } else if str_eq(cmd_str.as_str(), "list_tools") {
            CliCommand::ListTools
        } else if str_eq(cmd_str.as_str(), "exit") {
            CliCommand::Exit
        } else {
            let prefix = chars_of("set_prompt ");
            if matches_at_exec(cmd.as_slice(), prefix.as_slice(), 0) {
                let rest2 = copy_range(cmd.as_slice(), prefix.len(), cmd.len());
                proof {
                    reveal_strlit("set_prompt ");
                    assert(rest2@ =~= spec_trim(input@.skip(1)).skip("set_prompt "@.len() as int));
                }
                CliCommand::SetPrompt(string_of(rest2.as_slice()))
            } else {
                CliCommand::Unknown
            }
        }
    } else {
        CliCommand::Chat(input.to_owned())
    }
}

} // verus!
