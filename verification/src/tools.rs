//! The capability registry: named tools advertised to the model, lookup
//! by name at call time, and the compute halves of the built-in tools.

use vstd::prelude::*;

use crate::text::{
    chars_of, copy_range, find_from, find_seq, lemma_find_seq_bounds, push_all, push_str_chars,
    spec_trim, str_eq, string_of, trim_chars,
};

verus! {

/// One registered capability: its name and the description advertised to
/// the model. Execution itself happens outside this crate; the registry
/// only decides which capability a call resolves to.
pub struct ToolSpec {
    pub name: String,
    pub description: String,
}

/// First registered tool with the given name, scanning from index `i`.
pub open spec fn spec_find_tool_from(tools: Seq<ToolSpec>, name: Seq<char>, i: int) -> Option<int>
    decreases tools.len() - i,
{
    if i < 0 || i >= tools.len() {
        None
    } else if tools[i].name@ == name {
        Some(i)
    } else {
        spec_find_tool_from(tools, name, i + 1)
    }
}

/// First registered tool with the given name, if any.
pub open spec fn spec_find_tool(tools: Seq<ToolSpec>, name: Seq<char>) -> Option<int> {
    spec_find_tool_from(tools, name, 0)
}

/// Resolves a tool name against the registry: the first registered tool
/// with exactly that name.
pub fn find_tool(tools: &Vec<ToolSpec>, name: &str) -> (r: Option<usize>)
    ensures
        match r {
            Some(i) => spec_find_tool(tools@, name@) == Some(i as int) && i < tools@.len()
                && tools@[i as int].name@ == name@,
            None => spec_find_tool(tools@, name@) is None,
        },
{
    let n = tools.len();
    let mut i: usize = 0;
    while i < n
        invariant
            n == tools@.len(),
            i <= n,
            spec_find_tool(tools@, name@) == spec_find_tool_from(tools@, name@, i as int),
        decreases n - i,
    {
        if str_eq(tools[i].name.as_str(), name) {
            return Some(i);
        }
        i = i + 1;
    }
    None
}

/// Registers one more tool at the end of the registry.
pub fn add_tool(tools: &mut Vec<ToolSpec>, tool: ToolSpec)
    ensures
        final(tools)@ == old(tools)@.push(tool),
{
    tools.push(tool);
}

/// Unregisters the first tool with the given name; an unknown name is
/// reported and leaves the registry unchanged.
pub fn remove_tool(tools: &mut Vec<ToolSpec>, name: &str) -> (r: Result<(), String>)
    ensures
        match spec_find_tool(old(tools)@, name@) {
            Some(i) => r is Ok && final(tools)@ == old(tools)@.remove(i),
            None => (r matches Err(m) && m@ == "Tool not found: "@ + name@)
                && final(tools)@ == old(tools)@,
        },
{
    match find_tool(tools, name) {
        Some(i) => {
            tools.remove(i);
            Ok(())
        }
        None => {
            let mut msg: Vec<char> = Vec::new();
            push_str_chars(&mut msg, "Tool not found: ");
            push_str_chars(&mut msg, name);
            Err(string_of(msg.as_slice()))
        }
    }
}

/// The names of the registered tools, in registration order.
pub fn list_tools(tools: &Vec<ToolSpec>) -> (r: Vec<String>)
    ensures
        r@.len() == tools@.len(),
        forall|i: int| 0 <= i < r@.len() ==> r@[i]@ == #[trigger] tools@[i].name@,
{
    let n = tools.len();
    let mut r: Vec<String> = Vec::new();
    let mut i: usize = 0;
    while i < n
        invariant
            n == tools@.len(),
            i <= n,
            r@.len() == i,
            forall|k: int| 0 <= k < i ==> r@[k]@ == #[trigger] tools@[k].name@,
        decreases n - i,
    {
        r.push(tools[i].name.clone());
        i = i + 1;
    }
    r
}

/// The catalog line advertising one tool.
pub open spec fn spec_tool_line(t: ToolSpec) -> Seq<char> {
    "- "@ + t.name@ + ": "@ + t.description@ + "\n"@
}

/// The catalog lines for a list of tools, in order.
pub open spec fn spec_tool_lines(tools: Seq<ToolSpec>) -> Seq<char>
    decreases tools.len(),
{
    if tools.len() == 0 {
        Seq::<char>::empty()
    } else {
        spec_tool_lines(tools.drop_last()) + spec_tool_line(tools.last())
    }
}

/// The tool-call format instruction appended to the catalog.
pub open spec fn spec_tool_format_footer() -> Seq<char> {
    "For each function call, follow this exact format:\n<\u{ff5c}tool\u{2581}calls\u{2581}begin\u{ff5c}><\u{ff5c}tool\u{2581}call\u{2581}begin\u{ff5c}>function<\u{ff5c}tool\u{2581}sep\u{ff5c}>function_name\n```json\n{\"param1\": \"value1\", \"param2\": \"value2\"}\n```\n<\u{ff5c}tool\u{2581}call\u{2581}end\u{ff5c}><\u{ff5c}tool\u{2581}calls\u{2581}end\u{ff5c}>\n"@
}

/// The tool catalog included in the system prompt: a header, one line
/// per registered tool, and the call-format instruction; empty when no
/// tool is registered.
pub open spec fn spec_tool_context(tools: Seq<ToolSpec>) -> Seq<char> {
    if tools.len() == 0 {
        Seq::<char>::empty()
    } else {
        "You have access to the following tools:\n"@ + spec_tool_lines(tools)
            + spec_tool_format_footer()
    }
}

/// The system prompt sent to the model: the tool catalog, followed by
/// the configured prompt when one is set and not blank.
pub open spec fn spec_system_prompt(tools: Seq<ToolSpec>, user_prompt: Option<Seq<char>>) -> Seq<char> {
    match user_prompt {
        Some(p) => if spec_trim(p).len() > 0 {
            spec_tool_context(tools) + "\n\n"@ + p
        } else {
            spec_tool_context(tools)
        },
        None => spec_tool_context(tools),
    }
}

/// Renders the tool catalog for a registry.
pub fn tool_context(tools: &Vec<ToolSpec>) -> (r: String)
    ensures
        r@ == spec_tool_context(tools@),
{
    let mut out: Vec<char> = Vec::new();
    if tools.len() > 0 {
        push_str_chars(&mut out, "You have access to the following tools:\n");
        let ghost mid = out@;
        let n = tools.len();
        let mut i: usize = 0;
        while i < n
            invariant
                n == tools@.len(),
                i <= n,
                out@ == mid + spec_tool_lines(tools@.take(i as int)),
            decreases n - i,
        {
            push_str_chars(&mut out, "- ");
            push_str_chars(&mut out, tools[i].name.as_str());
            push_str_chars(&mut out, ": ");
            push_str_chars(&mut out, tools[i].description.as_str());
            push_str_chars(&mut out, "\n");
            proof {
                let t = tools@.take(i + 1);
                assert(t.drop_last() =~= tools@.take(i as int));
                assert(t.last() == tools@[i as int]);
                assert(out@ =~= mid + spec_tool_lines(t));
            }
            i = i + 1;
        }
        push_str_chars(&mut out, "For each function call, follow this exact format:\n<\u{ff5c}tool\u{2581}calls\u{2581}begin\u{ff5c}><\u{ff5c}tool\u{2581}call\u{2581}begin\u{ff5c}>function<\u{ff5c}tool\u{2581}sep\u{ff5c}>function_name\n```json\n{\"param1\": \"value1\", \"param2\": \"value2\"}\n```\n<\u{ff5c}tool\u{2581}call\u{2581}end\u{ff5c}><\u{ff5c}tool\u{2581}calls\u{2581}end\u{ff5c}>\n");
        proof {
            assert(tools@.take(n as int) =~= tools@);
            assert(out@ =~= spec_tool_context(tools@));
        }
    }
    string_of(out.as_slice())
}

/// Composes the system prompt from the registry and the configured
/// prompt text.
pub fn compose_system_prompt(tools: &Vec<ToolSpec>, user_prompt: &Option<String>) -> (r: String)
    ensures
        r@ == spec_system_prompt(
            tools@,
            match user_prompt {
                Some(p) => Some(p@),
                None => None,
            },
        ),
{
    let context = tool_context(tools);
    match user_prompt {
        Some(p) => {
            let pc = chars_of(p.as_str());
            let trimmed = trim_chars(pc.as_slice());
            if trimmed.len() > 0 {
                let mut out: Vec<char> = Vec::new();
                push_str_chars(&mut out, context.as_str());
                push_str_chars(&mut out, "\n\n");
                push_str_chars(&mut out, p.as_str());
                string_of(out.as_slice())
            } else {
                context
            }
        }
        None => context,
    }
}

/// The built-in calculator capability: evaluates arithmetic expressions.
/// Evaluation itself runs outside this crate; here the tool contributes
/// its name and advertised description.
pub struct MathTool;

impl MathTool {
    pub fn name(&self) -> (r: &'static str)
        ensures
            r@ == "calculator"@,
    {
        "calculator"
    }

    pub fn description(&self) -> (r: &'static str)
        ensures
            r@ == "A calculator tool that evaluates mathematical expressions: addition, subtraction, multiplication, division, remainder, exponentiation with **, parentheses, the constants pi and e, and functions such as sin, cos, sqrt, log and round. Use it strictly for mathematical calculations. Example usage: { \"expr\": \"round(12345 / 543)\" }"@,
    {
        "A calculator tool that evaluates mathematical expressions: addition, subtraction, multiplication, division, remainder, exponentiation with **, parentheses, the constants pi and e, and functions such as sin, cos, sqrt, log and round. Use it strictly for mathematical calculations. Example usage: { \"expr\": \"round(12345 / 543)\" }"
    }
}

/// The built-in web-search capability: queries DuckDuckGo and hands back
/// the scraped results. Fetching and scraping run outside this crate.
pub struct DDGSearchTool;

impl DDGSearchTool {
    pub fn name(&self) -> (r: &'static str)
        ensures
            r@ == "ddg_search"@,
    {
        "ddg_search"
    }

    pub fn description(&self) -> (r: &'static str)
        ensures
            r@ == "Searches the web using DuckDuckGo. Supports search operators such as quoted exact terms, -term to exclude, site:example.com, intitle: and inurl:. Usage: { \"query\": \"rust async traits\" }"@,
    {
        "Searches the web using DuckDuckGo. Supports search operators such as quoted exact terms, -term to exclude, site:example.com, intitle: and inurl:. Usage: { \"query\": \"rust async traits\" }"
    }
}

/// The built-in website capability: fetches a page and renders it as
/// Markdown or raw HTML. Fetching runs outside this crate.
pub struct WebsiteTool;

impl WebsiteTool {
    pub fn name(&self) -> (r: &'static str)
        ensures
            r@ == "website"@,
    {
        "website"
    }

    pub fn description(&self) -> (r: &'static str)
        ensures
            r@ == "Fetches a website. Parameters: `website`, the URL to fetch; `render`, the format to render the content in, either \"html\" or \"md\" (default \"md\"). Example usage: { \"website\": \"https://example.com\", \"render\": \"md\" }"@,
    {
        "Fetches a website. Parameters: `website`, the URL to fetch; `render`, the format to render the content in, either \"html\" or \"md\" (default \"md\"). Example usage: { \"website\": \"https://example.com\", \"render\": \"md\" }"
    }
}

/// One scraped search result.
pub struct SearchResult {
    pub title: String,
    pub link: String,
    pub snippet: String,
}

/// A scraped result is kept only when both its title and its link are
/// non-empty.
pub open spec fn spec_result_kept(r: SearchResult) -> bool {
    r.title@.len() > 0 && r.link@.len() > 0
}

/// The predicate a scraped result is filtered by.
pub open spec fn spec_kept_pred() -> spec_fn(SearchResult) -> bool {
    |sr: SearchResult| spec_result_kept(sr)
}

/// Keeps the scraped results that carry both a title and a link, in
/// order.
pub fn filter_search_results(results: Vec<SearchResult>) -> (r: Vec<SearchResult>)
    ensures
        r@ == results@.filter(spec_kept_pred()),
{
    let ghost orig = results@;
    let mut rest = results;
    let mut r: Vec<SearchResult> = Vec::new();
    proof {
        reveal(Seq::filter);
        assert(orig.skip(0) =~= orig);
        assert(orig.take(0).filter(spec_kept_pred()) =~= Seq::<SearchResult>::empty());
    }
    while rest.len() > 0
        invariant
            rest@.len() <= orig.len(),
            rest@ == orig.skip(orig.len() - rest@.len()),
            r@ == orig.take(orig.len() - rest@.len()).filter(spec_kept_pred()),
        decreases rest@.len(),
    {
        let ghost i = orig.len() - rest@.len();
        let x = rest.remove(0);
        proof {
            assert(x == orig[i]);
            assert(orig.skip(i).remove(0) =~= orig.skip(i + 1));
        }
        if !x.title.as_str().is_empty() && !x.link.as_str().is_empty() {
            r.push(x);
        }
        proof {
            reveal(Seq::filter);
            let t = orig.take(i + 1);
            assert(t.drop_last() =~= orig.take(i));
            assert(t.last() == orig[i]);
        }
    }
    proof {
        assert(orig.take(orig.len() as int) =~= orig);
    }
    r
}

/// The format fetched website content is rendered in.
#[derive(Clone, Copy, Debug, PartialEq, Eq, Structural)]
pub enum RenderKind {
    /// The raw page body, unchanged.
    Html,
    /// The page converted to Markdown.
    Markdown,
}

/// Decides the rendering of fetched website content: the raw body for
/// "html", Markdown conversion for "md", and an error for any other
/// format. The conversion itself walks the page's parse tree outside
/// this crate.
pub fn website_render_mode(render: &str) -> (r: Result<RenderKind, String>)
    ensures
        render@ == "html"@ ==> r == Ok::<RenderKind, String>(RenderKind::Html),
        render@ == "md"@ ==> r == Ok::<RenderKind, String>(RenderKind::Markdown),
        render@ != "html"@ && render@ != "md"@ ==> (r matches Err(e)
            && e@ == "Invalid 'render' parameter, must be 'html' or 'md'"@),
{
    proof {
        reveal_strlit("html");
        reveal_strlit("md");
        assert("html"@.len() == 4);
        assert("md"@.len() == 2);
        assert("html"@ != "md"@);
    }
    if str_eq(render, "html") {
        Ok(RenderKind::Html)
    } else if str_eq(render, "md") {
        Ok(RenderKind::Markdown)
    } else {
        Err("Invalid 'render' parameter, must be 'html' or 'md'".to_owned())
    }
}

/// The marker opening a search-result title anchor.
pub open spec fn title_marker() -> Seq<char> {
    "class=\"result__a\""@
}

/// The marker opening a search-result link anchor.
pub open spec fn link_marker() -> Seq<char> {
    "class=\"result__url\""@
}

/// The marker opening a search-result snippet anchor.
pub open spec fn snippet_marker() -> Seq<char> {
    "class=\"result__snippet\""@
}

/// A closing anchor tag.
pub open spec fn close_anchor() -> Seq<char> {
    seq!['<', '/', 'a', '>']
}

/// The text of `s` from position `i` on with markup removed: each span
/// from a '<' to the next '>' is dropped; a '<' never followed by a '>'
/// is kept with the rest as it stands.
pub open spec fn strip_markup_from(s: Seq<char>, i: int) -> Seq<char>
    decreases s.len() + 1 - i,
    via strip_markup_from_decreases
{
    if i < 0 || i >= s.len() {
        Seq::<char>::empty()
    } else if s[i] == '<' {
        match find_seq(s, seq!['>'], i) {
            Some(g) => strip_markup_from(s, g + 1),
            None => s.skip(i),
        }
    } else {
        seq![s[i]] + strip_markup_from(s, i + 1)
    }
}

#[via_fn]
proof fn strip_markup_from_decreases(s: Seq<char>, i: int) {
    if 0 <= i < s.len() && s[i] == '<' {
        lemma_find_seq_bounds(s, seq!['>'], i);
    }
}

/// Removes markup from a slice of captured text.
fn strip_markup(s: &[char]) -> (r: Vec<char>)
    ensures
        r@ == strip_markup_from(s@, 0),
{
    let n = s.len();
    let gt = {
        let mut v: Vec<char> = Vec::new();
        v.push('>');
        proof {
            assert(v@ =~= seq!['>']);
        }
        v
    };
    let mut out: Vec<char> = Vec::new();
    let mut i: usize = 0;
    while i < n
        invariant
            i <= n,
            n == s@.len(),
            gt@ == seq!['>'],
            strip_markup_from(s@, 0) =~= out@ + strip_markup_from(s@, i as int),
        decreases n - i,
    {
        let ghost out0 = out@;
        if s[i] == '<' {
            match find_from(s, gt.as_slice(), i) {
                Some(g) => {
                    proof {
                        lemma_find_seq_bounds(s@, seq!['>'], i as int);
                    }
                    i = g + 1;
                }
                None => {
                    let rest = copy_range(s, i, n);
                    proof {
                        assert(rest@ =~= s@.skip(i as int));
                    }
                    push_all(&mut out, rest.as_slice());
                    return out;
                }
            }
        } else {
            out.push(s[i]);
            proof {
                assert(out@ =~= out0 + seq![s@[i as int]]);
            }
            i = i + 1;
        }
    }
    proof {
        assert(strip_markup_from(s@, n as int) =~= Seq::<char>::empty());
    }
    out
}

/// The captures of one marker in a page, in order: for each occurrence
/// of the marker, the text between the first '>' after it and the next
/// closing anchor, with markup removed and surrounding whitespace
/// trimmed. An occurrence without both delimiters ends the scan.
pub open spec fn spec_captures(s: Seq<char>, marker: Seq<char>, from: int) -> Seq<Seq<char>>
    decreases s.len() + 1 - from,
    via spec_captures_decreases
{
    match find_seq(s, marker, from) {
        None => Seq::<Seq<char>>::empty(),
        Some(b) => match find_seq(s, seq!['>'], b + marker.len()) {
            None => Seq::<Seq<char>>::empty(),
            Some(g) => match find_seq(s, close_anchor(), g + 1) {
                None => Seq::<Seq<char>>::empty(),
                Some(e) => seq![spec_trim(strip_markup_from(s.subrange(g + 1, e), 0))]
                    + spec_captures(s, marker, e + close_anchor().len()),
            },
        },
    }
}

#[via_fn]
proof fn spec_captures_decreases(s: Seq<char>, marker: Seq<char>, from: int) {
    match find_seq(s, marker, from) {
        Some(b) => {
            lemma_find_seq_bounds(s, marker, from);
            match find_seq(s, seq!['>'], b + marker.len()) {
                Some(g) => {
                    lemma_find_seq_bounds(s, seq!['>'], b + marker.len());
                    lemma_find_seq_bounds(s, close_anchor(), g + 1);
                }
                None => {}
            }
        }
        None => {}
    }
}

/// Collects the captures of one marker in a page.
fn capture_all(s: &[char], marker: &[char]) -> (r: Vec<String>)
    ensures
        r@.map_values(|c: String| c@) == spec_captures(s@, marker@, 0),
{
    let n = s.len();
    let gt = {
        let mut v: Vec<char> = Vec::new();
        v.push('>');
        proof {
            assert(v@ =~= seq!['>']);
        }
        v
    };
    let close = {
        let mut v: Vec<char> = Vec::new();
        v.push('<');
        v.push('/');
        v.push('a');
        v.push('>');
        proof {
            assert(v@ =~= close_anchor());
        }
        v
    };
    let mut out: Vec<String> = Vec::new();
    let mut from: usize = 0;
    proof {
        assert(out@.map_values(|c: String| c@) =~= Seq::<Seq<char>>::empty());
    }
    loop
        invariant
            from <= n + 1,
            n == s@.len(),
            gt@ == seq!['>'],
            close@ == close_anchor(),
            spec_captures(s@, marker@, 0) =~= out@.map_values(|c: String| c@) + spec_captures(
                s@,
                marker@,
                from as int,
            ),
        ensures
            spec_captures(s@, marker@, from as int) =~= Seq::<Seq<char>>::empty(),
        decreases s@.len() + 1 - from,
    {
        let b = match find_from(s, marker, from) {
            Some(b) => b,
            None => {
                break;
            }
        };
        proof {
            lemma_find_seq_bounds(s@, marker@, from as int);
        }
        let g = match find_from(s, gt.as_slice(), b + marker.len()) {
            Some(g) => g,
            None => {
                break;
            }
        };
        proof {
            lemma_find_seq_bounds(s@, seq!['>'], b + marker@.len());
        }
        let e = match find_from(s, close.as_slice(), g + 1) {
            Some(e) => e,
            None => {
                break;
            }
        };
        proof {
            lemma_find_seq_bounds(s@, close_anchor(), g + 1);
        }
        let span = copy_range(s, g + 1, e);
        let stripped = strip_markup(span.as_slice());
        let trimmed = trim_chars(stripped.as_slice());
        let capture = string_of(trimmed.as_slice());
        let ghost prev = out@;
        out.push(capture);
        proof {
            assert(out@.map_values(|c: String| c@) =~= prev.map_values(|c: String| c@).push(
                spec_trim(strip_markup_from(s@.subrange(g + 1, e as int), 0)),
            ));
            assert(prev.map_values(|c: String| c@).push(
                spec_trim(strip_markup_from(s@.subrange(g + 1, e as int), 0)),
            ) + spec_captures(s@, marker@, e + 4) =~= prev.map_values(|c: String| c@) + (seq![
                spec_trim(strip_markup_from(s@.subrange(g + 1, e as int), 0)),
            ] + spec_captures(s@, marker@, e + 4)));
        }
        from = e + 4;
    }
    out
}

/// Extracts the scraped search results from a fetched results page: the
/// i-th title capture paired with the i-th link and snippet captures,
/// empty when a list runs short. Callers drop results lacking a title
/// or link with [`filter_search_results`].
pub fn extract_search_results(body: &str) -> (r: Vec<SearchResult>)
    ensures
        ({
            let titles = spec_captures(body@, title_marker(), 0);
            let links = spec_captures(body@, link_marker(), 0);
            let snips = spec_captures(body@, snippet_marker(), 0);
            &&& r@.len() == titles.len()
            &&& forall|i: int| 0 <= i < r@.len() ==> {
                &&& (#[trigger] r@[i]).title@ == titles[i]
                &&& r@[i].link@ == if i < links.len() {
                    links[i]
                } else {
                    Seq::<char>::empty()
                }
                &&& r@[i].snippet@ == if i < snips.len() {
                    snips[i]
                } else {
                    Seq::<char>::empty()
                }
            }
        }),
{
    let bv = chars_of(body);
    let bs = bv.as_slice();
    let tm = chars_of("class=\"result__a\"");
    let lm = chars_of("class=\"result__url\"");
    let sm = chars_of("class=\"result__snippet\"");
    let titles = capture_all(bs, tm.as_slice());
    let links = capture_all(bs, lm.as_slice());
    let snips = capture_all(bs, sm.as_slice());
    let ghost tseq = spec_captures(body@, title_marker(), 0);
    let ghost lseq = spec_captures(body@, link_marker(), 0);
    let ghost sseq = spec_captures(body@, snippet_marker(), 0);
    let n = titles.len();
    let mut r: Vec<SearchResult> = Vec::new();
    let mut rest = titles;
    while rest.len() > 0
        invariant
            rest@.len() <= tseq.len(),
            n == tseq.len(),
            links@.map_values(|c: String| c@) == lseq,
            snips@.map_values(|c: String| c@) == sseq,
            r@.len() + rest@.len() == n,
            forall|k: int| 0 <= k < rest@.len() ==> #[trigger] rest@[k]@ == tseq[r@.len() + k],
            forall|i: int| 0 <= i < r@.len() ==> {
                &&& (#[trigger] r@[i]).title@ == tseq[i]
                &&& r@[i].link@ == if i < lseq.len() {
                    lseq[i]
                } else {
                    Seq::<char>::empty()
                }
                &&& r@[i].snippet@ == if i < sseq.len() {
                    sseq[i]
                } else {
                    Seq::<char>::empty()
                }
            },
        decreases rest@.len(),
    {
        let ghost k = r@.len() as int;
        let ghost rest0 = rest@;
        let title = rest.remove(0);
        proof {
            assert(title == rest0[0]);
            assert(rest@ =~= rest0.drop_first());
        }
        let i = r.len();
        let link = if i < links.len() {
            links[i].clone()
        } else {
            String::new()
        };
        let snippet = if i < snips.len() {
            snips[i].clone()
        } else {
            String::new()
        };
        r.push(SearchResult { title, link, snippet });
    }
    r
}

} // verus!
