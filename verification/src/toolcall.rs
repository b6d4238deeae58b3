//! Parsing of structured tool-call directives embedded in model output.
//!
//! A directive is a delimited block of the form
//! `<｜tool▁call▁begin｜>TYPE<｜tool▁sep｜>NAME ```json { ... } ``` <｜tool▁call▁end｜>`:
//! a call type and a tool name in word characters, then a fenced JSON
//! object of arguments. Blocks are scanned left to right; a begin marker
//! that is not followed by a well-formed block is skipped, and a block
//! whose argument text is not accepted as JSON yields no call.

use vstd::prelude::*;

use crate::text::{
    chars_of, copy_range, find_from, find_seq, is_space, is_space_exec, is_word_char,
    is_word_char_exec, lemma_find_seq_bounds, matches_at, matches_at_exec, string_of,
};

verus! {

/// One parsed tool call: the call type, the tool name, and the argument
/// object's source text.
#[derive(Debug, Clone)]
pub struct ToolCall {
    pub tool_type: String,
    pub tool_name: String,
    pub tool_args: String,
}

/// The ghost view of a parsed tool call.
pub ghost struct SpecToolCall {
    pub typ: Seq<char>,
    pub name: Seq<char>,
    pub args: Seq<char>,
}

/// The ghost result of parsing one block: its components and the
/// position right after the end marker.
pub ghost struct SpecBlock {
    pub typ: Seq<char>,
    pub name: Seq<char>,
    pub args: Seq<char>,
    pub next: int,
}

/// The marker opening one tool call.
pub open spec fn call_begin_marker() -> Seq<char> {
    seq![
        '<', '\u{ff5c}', 't', 'o', 'o', 'l', '\u{2581}', 'c', 'a', 'l', 'l', '\u{2581}', 'b', 'e',
        'g', 'i', 'n', '\u{ff5c}', '>',
    ]
}

/// The marker separating the call type from the tool name.
pub open spec fn sep_marker() -> Seq<char> {
    seq!['<', '\u{ff5c}', 't', 'o', 'o', 'l', '\u{2581}', 's', 'e', 'p', '\u{ff5c}', '>']
}

/// The marker closing one tool call.
pub open spec fn call_end_marker() -> Seq<char> {
    seq![
        '<', '\u{ff5c}', 't', 'o', 'o', 'l', '\u{2581}', 'c', 'a', 'l', 'l', '\u{2581}', 'e', 'n',
        'd', '\u{ff5c}', '>',
    ]
}

/// The fence opening the JSON argument object.
pub open spec fn json_fence_open() -> Seq<char> {
    seq!['`', '`', '`', 'j', 's', 'o', 'n']
}

/// A plain code fence.
pub open spec fn fence() -> Seq<char> {
    seq!['`', '`', '`']
}

fn call_begin_chars() -> (r: Vec<char>)
    ensures
        r@ == call_begin_marker(),
{
    let mut v: Vec<char> = Vec::new();
    v.push('<');
    v.push('\u{ff5c}');
    v.push('t');
    v.push('o');
    v.push('o');
    v.push('l');
    v.push('\u{2581}');
    v.push('c');
    v.push('a');
    v.push('l');
    v.push('l');
    v.push('\u{2581}');
    v.push('b');
    v.push('e');
    v.push('g');
    v.push('i');
    v.push('n');
    v.push('\u{ff5c}');
    v.push('>');
    proof {
        assert(v@ =~= call_begin_marker());
    }
    v
}

fn sep_chars() -> (r: Vec<char>)
    ensures
        r@ == sep_marker(),
{
    let mut v: Vec<char> = Vec::new();
    v.push('<');
    v.push('\u{ff5c}');
    v.push('t');
    v.push('o');
    v.push('o');
    v.push('l');
    v.push('\u{2581}');
    v.push('s');
    v.push('e');
    v.push('p');
    v.push('\u{ff5c}');
    v.push('>');
    proof {
        assert(v@ =~= sep_marker());
    }
    v
}

fn call_end_chars() -> (r: Vec<char>)
    ensures
        r@ == call_end_marker(),
{
    let mut v: Vec<char> = Vec::new();
    v.push('<');
    v.push('\u{ff5c}');
    v.push('t');
    v.push('o');
    v.push('o');
    v.push('l');
    v.push('\u{2581}');
    v.push('c');
    v.push('a');
    v.push('l');
    v.push('l');
    v.push('\u{2581}');
    v.push('e');
    v.push('n');
    v.push('d');
    v.push('\u{ff5c}');
    v.push('>');
    proof {
        assert(v@ =~= call_end_marker());
    }
    v
}

fn json_fence_open_chars() -> (r: Vec<char>)
    ensures
        r@ == json_fence_open(),
{
    let mut v: Vec<char> = Vec::new();
    v.push('`');
    v.push('`');
    v.push('`');
    v.push('j');
    v.push('s');
    v.push('o');
    v.push('n');
    proof {
        assert(v@ =~= json_fence_open());
    }
    v
}

fn fence_chars() -> (r: Vec<char>)
    ensures
        r@ == fence(),
{
    let mut v: Vec<char> = Vec::new();
    v.push('`');
    v.push('`');
    v.push('`');
    proof {
        assert(v@ =~= fence());
    }
    v
}

/// Position of the first non-word character at or after `i`.
pub open spec fn word_end(s: Seq<char>, i: int) -> int
    decreases s.len() - i,
{
    if i < 0 || i >= s.len() || !is_word_char(s[i]) {
        i
    } else {
        word_end(s, i + 1)
    }
}

/// Position of the first non-whitespace character at or after `i`.
pub open spec fn ws_end(s: Seq<char>, i: int) -> int
    decreases s.len() - i,
{
    if i < 0 || i >= s.len() || !is_space(s[i]) {
        i
    } else {
        ws_end(s, i + 1)
    }
}

proof fn lemma_word_end_bounds(s: Seq<char>, i: int)
    requires
        0 <= i,
    ensures
        i <= word_end(s, i),
        i <= s.len() ==> word_end(s, i) <= s.len(),
    decreases s.len() - i,
{
    if !(i < 0 || i >= s.len() || !is_word_char(s[i])) {
        lemma_word_end_bounds(s, i + 1);
    }
}

proof fn lemma_ws_end_bounds(s: Seq<char>, i: int)
    requires
        0 <= i,
    ensures
        i <= ws_end(s, i),
        i <= s.len() ==> ws_end(s, i) <= s.len(),
    decreases s.len() - i,
{
    if !(i < 0 || i >= s.len() || !is_space(s[i])) {
        lemma_ws_end_bounds(s, i + 1);
    }
}

/// Right after a closing brace, the rest of a well-formed block follows:
/// optional whitespace, a plain fence, and the end marker.
pub open spec fn tail_matches(s: Seq<char>, i: int) -> bool {
    matches_at(s, fence(), ws_end(s, i)) && matches_at(s, call_end_marker(), ws_end(s, i) + 3)
}

/// Position of the first closing brace at or after `i` that is followed
/// by the tail of a well-formed block.
pub open spec fn args_close(s: Seq<char>, i: int) -> Option<int>
    decreases s.len() - i,
{
    if i < 0 || i >= s.len() {
        None
    } else if s[i] == '}' && tail_matches(s, i + 1) {
        Some(i)
    } else {
        args_close(s, i + 1)
    }
}

proof fn lemma_args_close_bounds(s: Seq<char>, i: int)
    requires
        0 <= i,
    ensures
        args_close(s, i) matches Some(a) ==> i <= a < s.len() && s[a] == '}' && tail_matches(
            s,
            a + 1,
        ),
    decreases s.len() - i,
{
    if !(i < 0 || i >= s.len()) && !(s[i] == '}' && tail_matches(s, i + 1)) {
        lemma_args_close_bounds(s, i + 1);
    }
}

/// Parses one block whose begin marker ends at position `p`: the call
/// type up to the separator, the tool name, the fenced JSON argument
/// object, and the position after the end marker.
pub open spec fn parse_block(s: Seq<char>, p: int) -> Option<SpecBlock> {
    let te = word_end(s, p);
    let q = te + sep_marker().len();
    let ne = word_end(s, q);
    let w = ws_end(s, ne);
    let a0 = ws_end(s, w + json_fence_open().len());
    if te <= p || !matches_at(s, sep_marker(), te) || ne <= q || !matches_at(
        s,
        json_fence_open(),
        w,
    ) || !(a0 < s.len() && s[a0] == '{') {
        None
    } else {
        match args_close(s, a0) {
            None => None,
            Some(ae) => Some(
                SpecBlock {
                    typ: s.subrange(p, te),
                    name: s.subrange(q, ne),
                    args: s.subrange(a0, ae + 1),
                    next: ws_end(s, ae + 1) + fence().len() + call_end_marker().len(),
                },
            ),
        }
    }
}

proof fn lemma_parse_block_bounds(s: Seq<char>, p: int)
    requires
        0 <= p,
    ensures
        parse_block(s, p) matches Some(b) ==> p < b.next <= s.len(),
{
    if p > s.len() {
        // word_end(s, p) == p, so the block cannot parse
        assert(word_end(s, p) == p);
    } else {
        lemma_word_end_bounds(s, p);
        let te = word_end(s, p);
        if te > p && matches_at(s, sep_marker(), te) {
            let q = te + sep_marker().len();
            lemma_word_end_bounds(s, q);
            let ne = word_end(s, q);
            if ne > q {
                lemma_ws_end_bounds(s, ne);
                let w = ws_end(s, ne);
                if matches_at(s, json_fence_open(), w) {
                    lemma_ws_end_bounds(s, w + json_fence_open().len());
                    let a0 = ws_end(s, w + json_fence_open().len());
                    if a0 < s.len() && s[a0] == '{' {
                        lemma_args_close_bounds(s, a0);
                        match args_close(s, a0) {
                            Some(ae) => {
                                lemma_ws_end_bounds(s, ae + 1);
                                let t = ws_end(s, ae + 1);
                                assert(matches_at(s, fence(), t));
                                assert(matches_at(s, call_end_marker(), t + 3));
                            }
                            None => {}
                        }
                    }
                }
            }
        }
    }
}

/// All calls parsed from `s` at or after `from`, scanning left to right:
/// for each begin marker in turn, the following block when it is
/// well-formed and its argument text is accepted as JSON; a marker
/// without a well-formed block is skipped.
pub open spec fn parse_calls_from(s: Seq<char>, from: int) -> Seq<SpecToolCall>
    decreases s.len() + 1 - from,
    via parse_calls_from_decreases
{
    match find_seq(s, call_begin_marker(), from) {
        None => Seq::<SpecToolCall>::empty(),
        Some(b) => {
            let p = b + call_begin_marker().len();
            match parse_block(s, p) {
                None => parse_calls_from(s, p),
                Some(blk) => {
                    if json_accepted(blk.args) {
                        seq![SpecToolCall { typ: blk.typ, name: blk.name, args: blk.args }]
                            + parse_calls_from(s, blk.next)
                    } else {
                        parse_calls_from(s, blk.next)
                    }
                }
            }
        }
    }
}

#[via_fn]
proof fn parse_calls_from_decreases(s: Seq<char>, from: int) {
    match find_seq(s, call_begin_marker(), from) {
        Some(b) => {
            lemma_find_seq_bounds(s, call_begin_marker(), from);
            let p = b + call_begin_marker().len();
            lemma_parse_block_bounds(s, p);
        }
        None => {}
    }
}

/// All calls parsed from a model response.
pub open spec fn spec_parse_tool_calls(s: Seq<char>) -> Seq<SpecToolCall> {
    parse_calls_from(s, 0)
}

/// Acceptance of a candidate argument text as a JSON value, as the JSON
/// library decides it: a function of the text alone.
pub uninterp spec fn json_accepted(s: Seq<char>) -> bool;

/// Relies on `serde_json::from_str::<serde_json::Value>`: whether a text
/// parses as a JSON value depends on the text alone.
#[verifier::external_body]
fn json_args_ok(s: &str) -> (r: bool)
    ensures
        r == json_accepted(s@),
{
    serde_json::from_str::<serde_json::Value>(s).is_ok()
}

fn word_end_exec(s: &[char], i: usize) -> (r: usize)
    requires
        i <= s@.len(),
    ensures
        r == word_end(s@, i as int),
        i <= r <= s@.len(),
{
    let n = s.len();
    let mut j: usize = i;
    while j < n && is_word_char_exec(s[j])
        invariant
            i <= j <= n,
            n == s@.len(),
            word_end(s@, i as int) == word_end(s@, j as int),
        decreases n - j,
    {
        j = j + 1;
    }
    j
}

fn ws_end_exec(s: &[char], i: usize) -> (r: usize)
    requires
        i <= s@.len(),
    ensures
        r == ws_end(s@, i as int),
        i <= r <= s@.len(),
{
    let n = s.len();
    let mut j: usize = i;
    while j < n && is_space_exec(s[j])
        invariant
            i <= j <= n,
            n == s@.len(),
            ws_end(s@, i as int) == ws_end(s@, j as int),
        decreases n - j,
    {
        j = j + 1;
    }
    j
}

fn tail_matches_exec(s: &[char], i: usize) -> (r: bool)
    requires
        i <= s@.len(),
    ensures
        r == tail_matches(s@, i as int),
{
    let n = s.len();
    let a = ws_end_exec(s, i);
    let f = fence_chars();
    if !matches_at_exec(s, f.as_slice(), a) {
        return false;
    }
    let e = call_end_chars();
    assert(a + 3 <= n);
    matches_at_exec(s, e.as_slice(), a + 3)
}

fn args_close_exec(s: &[char], i: usize) -> (r: Option<usize>)
    requires
        i <= s@.len(),
    ensures
        match r {
            Some(a) => args_close(s@, i as int) == Some(a as int) && i <= a < s@.len(),
            None => args_close(s@, i as int) is None,
        },
{
    let n = s.len();
    let mut j: usize = i;
    while j < n
        invariant
            i <= j <= n,
            n == s@.len(),
            args_close(s@, i as int) == args_close(s@, j as int),
        decreases n - j,
    {
        if s[j] == '}' && tail_matches_exec(s, j + 1) {
            return Some(j);
        }
        j = j + 1;
    }
    None
}

fn parse_block_exec(s: &[char], p: usize) -> (r: Option<(Vec<char>, Vec<char>, Vec<char>, usize)>)
    requires
        p <= s@.len(),
    ensures
        match r {
            Some(b) => parse_block(s@, p as int) matches Some(blk) && b.0@ == blk.typ && b.1@
                == blk.name && b.2@ == blk.args && b.3 == blk.next && p < b.3 <= s@.len(),
            None => parse_block(s@, p as int) is None,
        },
{
    proof {
        lemma_parse_block_bounds(s@, p as int);
    }
    let n = s.len();
    let te = word_end_exec(s, p);
    if te <= p {
        return None;
    }
    let sep = sep_chars();
    if !matches_at_exec(s, sep.as_slice(), te) {
        return None;
    }
    assert(te + sep@.len() <= n);
    let q = te + sep.len();
    let ne = word_end_exec(s, q);
    if ne <= q {
        return None;
    }
    let w = ws_end_exec(s, ne);
    let jopen = json_fence_open_chars();
    if !matches_at_exec(s, jopen.as_slice(), w) {
        return None;
    }
    assert(w + jopen@.len() <= n);
    let a0 = ws_end_exec(s, w + jopen.len());
    if !(a0 < s.len() && s[a0] == '{') {
        return None;
    }
    match args_close_exec(s, a0) {
        None => None,
        Some(ae) => {
            proof {
                lemma_args_close_bounds(s@, a0 as int);
            }
            let t = ws_end_exec(s, ae + 1);
            proof {
                assert(tail_matches(s@, ae + 1));
                assert(matches_at(s@, fence(), t as int));
                assert(matches_at(s@, call_end_marker(), t + 3));
            }
            assert(t + 3 + 17 <= n);
            let next = t + 3 + 17;
            let typ = copy_range(s, p, te);
            let name = copy_range(s, q, ne);
            let args = copy_range(s, a0, ae + 1);
            Some((typ, name, args, next))
        }
    }
}

/// The ghost views of a list of parsed calls.
pub open spec fn views_of_calls(calls: Seq<ToolCall>) -> Seq<SpecToolCall> {
    calls.map_values(
        |c: ToolCall| SpecToolCall { typ: c.tool_type@, name: c.tool_name@, args: c.tool_args@ },
    )
}

/// Parses all tool-call directives from a model response, in order of
/// appearance.
pub fn parse_tool_calls(response: &str) -> (r: Vec<ToolCall>)
    ensures
        views_of_calls(r@) == spec_parse_tool_calls(response@),
{
    let sv = chars_of(response);
    let s = sv.as_slice();
    let n = s.len();
    let begin = call_begin_chars();
    let mut out: Vec<ToolCall> = Vec::new();
    let mut from: usize = 0;
    proof {
        assert(views_of_calls(out@) =~= Seq::<SpecToolCall>::empty());
    }
    loop
        invariant
            n == s@.len(),
            s@ == response@,
            begin@ == call_begin_marker(),
            from <= s@.len() + 1,
            spec_parse_tool_calls(response@) =~= views_of_calls(out@) + parse_calls_from(
                s@,
                from as int,
            ),
        ensures
            parse_calls_from(s@, from as int) =~= Seq::<SpecToolCall>::empty(),
        decreases s@.len() + 1 - from,
    {
        match find_from(s, begin.as_slice(), from) {
            None => {
                break;
            }
            Some(b) => {
                proof {
                    lemma_find_seq_bounds(s@, call_begin_marker(), from as int);
                }
                assert(b + 19 <= n);
                let p = b + 19;
                proof {
                    assert(p <= s@.len());
                }
                match parse_block_exec(s, p) {
                    None => {
                        proof {
                            assert(parse_calls_from(s@, from as int) == parse_calls_from(
                                s@,
                                p as int,
                            ));
                        }
                        from = p;
                    }
                    Some((typ, name, args, next)) => {
                        let args_string = string_of(args.as_slice());
                        let ok = json_args_ok(args_string.as_str());
                        let ghost blk = parse_block(s@, p as int)->Some_0;
                        if ok {
                            let call = ToolCall {
                                tool_type: string_of(typ.as_slice()),
                                tool_name: string_of(name.as_slice()),
                                tool_args: args_string,
                            };
                            proof {
                                assert(parse_calls_from(s@, from as int) =~= seq![
                                    SpecToolCall { typ: blk.typ, name: blk.name, args: blk.args },
                                ] + parse_calls_from(s@, blk.next));
                            }
                            out.push(call);
                            proof {
                                assert(views_of_calls(out@) =~= views_of_calls(
                                    out@.drop_last(),
                                ).push(
                                    SpecToolCall { typ: blk.typ, name: blk.name, args: blk.args },
                                ));
                                assert(views_of_calls(out@) + parse_calls_from(s@, next as int)
                                    =~= views_of_calls(out@.drop_last()) + (seq![
                                    SpecToolCall { typ: blk.typ, name: blk.name, args: blk.args },
                                ] + parse_calls_from(s@, next as int)));
                            }
                        } else {
                            proof {
                                assert(parse_calls_from(s@, from as int) =~= parse_calls_from(
                                    s@,
                                    blk.next,
                                ));
                            }
                        }
                        from = next;
                    }
                }
            }
        }
    }
    out
}

} // verus!
