//! The context assembler: conversation messages, deduplication of
//! retrieved memory, and assembly of the message sequence sent to the
//! model gateway.

use vstd::prelude::*;

use crate::json::spec_posts_json;
use crate::memory::MemoryEntry;
use crate::post::{spec_embedding_text, spec_post_message, PostData, assemble_post_message, embedding_text};
use crate::json::post_data_to_json_string;
use crate::text::push_str_chars;
use crate::text::string_of;

verus! {

/// The role a conversation message is sent under.
#[derive(Clone, Copy, Debug, PartialEq, Eq, Structural)]
pub enum Role {
    System,
    User,
    Assistant,
    Tool,
}

/// One conversation message exchanged with the model gateway.
#[derive(Debug, Clone)]
pub struct Message {
    pub role: Role,
    pub content: String,
    /// For tool-result messages: the name of the tool that produced the
    /// content.
    pub tool_name: Option<String>,
}

/// Builds a system message.
pub fn system_message(content: String) -> (m: Message)
    ensures
        m.role == Role::System,
        m.content == content,
        m.tool_name is None,
{
    Message { role: Role::System, content, tool_name: None }
}

/// Builds a user message.
pub fn user_message(content: String) -> (m: Message)
    ensures
        m.role == Role::User,
        m.content == content,
        m.tool_name is None,
{
    Message { role: Role::User, content, tool_name: None }
}

/// Builds an assistant message.
pub fn assistant_message(content: String) -> (m: Message)
    ensures
        m.role == Role::Assistant,
        m.content == content,
        m.tool_name is None,
{
    Message { role: Role::Assistant, content, tool_name: None }
}

/// Builds a tool-result message.
pub fn tool_message(tool_name: String, content: String) -> (m: Message)
    ensures
        m.role == Role::Tool,
        m.content == content,
        m.tool_name matches Some(n) && n == tool_name,
{
    Message { role: Role::Tool, content, tool_name: Some(tool_name) }
}

/// Renders a reconstructed thread as the plain user messages sent to the
/// model, one per post, in order.
pub fn json_to_chatmessages(posts: &Vec<PostData>) -> (r: Vec<Message>)
    ensures
        r@.len() == posts@.len(),
        forall|i: int| 0 <= i < r@.len() ==> {
            &&& (#[trigger] r@[i]).role == Role::User
            &&& r@[i].content@ == spec_post_message(posts@[i])
            &&& r@[i].tool_name is None
        },
{
    let n = posts.len();
    let mut r: Vec<Message> = Vec::new();
    let mut i: usize = 0;
    while i < n
        invariant
            n == posts@.len(),
            i <= n,
            r@.len() == i,
            forall|k: int| 0 <= k < i ==> {
                &&& (#[trigger] r@[k]).role == Role::User
                &&& r@[k].content@ == spec_post_message(posts@[k])
                &&& r@[k].tool_name is None
            },
        decreases n - i,
    {
        let content = assemble_post_message(&posts[i]);
        r.push(user_message(content));
        i = i + 1;
    }
    r
}

/// Renders a reconstructed thread as one user message holding the
/// serialized posts.
pub fn json_to_stringified_chatmessages(posts: &Vec<PostData>) -> (r: Vec<Message>)
    ensures
        r@.len() == 1,
        r@[0].role == Role::User,
        r@[0].content@ == spec_posts_json(posts@),
        r@[0].tool_name is None,
{
    let json = post_data_to_json_string(posts);
    let mut r: Vec<Message> = Vec::new();
    r.push(user_message(json));
    r
}

/// The texts embedded for retrieval, one per post, in order.
pub fn embedding_texts(posts: &Vec<PostData>) -> (r: Vec<String>)
    ensures
        r@.len() == posts@.len(),
        forall|i: int| 0 <= i < r@.len() ==> (#[trigger] r@[i])@ == spec_embedding_text(posts@[i]),
{
    let n = posts.len();
    let mut r: Vec<String> = Vec::new();
    let mut i: usize = 0;
    while i < n
        invariant
            n == posts@.len(),
            i <= n,
            r@.len() == i,
            forall|k: int| 0 <= k < i ==> (#[trigger] r@[k])@ == spec_embedding_text(posts@[k]),
        decreases n - i,
    {
        r.push(embedding_text(&posts[i]));
        i = i + 1;
    }
    r
}

/// Retrieved entries with every repeated identifier removed: each entry
/// is kept exactly when its identifier has not been seen before it, so
/// the first occurrence survives and the ranking order is preserved.
pub open spec fn spec_dedup_ids(s: Seq<MemoryEntry>, seen: Set<Seq<char>>) -> Seq<MemoryEntry>
    decreases s.len(),
{
    if s.len() == 0 {
        Seq::<MemoryEntry>::empty()
    } else if seen.contains(s[0].id@) {
        spec_dedup_ids(s.drop_first(), seen)
    } else {
        seq![s[0]] + spec_dedup_ids(s.drop_first(), seen.insert(s[0].id@))
    }
}

/// Deduplication by identifier, starting from no identifier seen.
pub open spec fn spec_dedup(s: Seq<MemoryEntry>) -> Seq<MemoryEntry> {
    spec_dedup_ids(s, Set::<Seq<char>>::empty())
}

/// Does the collected result already hold an entry with this identifier?
fn holds_id(r: &Vec<MemoryEntry>, id: &String) -> (found: bool)
    ensures
        found == exists|j: int| 0 <= j < r@.len() && (#[trigger] r@[j].id@) == id@,
{
    let n = r.len();
    let mut j: usize = 0;
    while j < n
        invariant
            n == r@.len(),
            j <= n,
            forall|k: int| 0 <= k < j ==> (#[trigger] r@[k].id@) != id@,
        decreases n - j,
    {
        if r[j].id.eq(id) {
            assert(r@[j as int].id@ == id@);
            return true;
        }
        j = j + 1;
    }
    false
}

/// Removes repeated identifiers from retrieved entries, keeping the
/// first occurrence of each and preserving the relevance ranking.
pub fn dedup_entries(entries: Vec<MemoryEntry>) -> (r: Vec<MemoryEntry>)
    ensures
        r@ == spec_dedup(entries@),
{
    let ghost orig = entries@;
    let mut rest = entries;
    let mut r: Vec<MemoryEntry> = Vec::new();
    let ghost mut seen = Set::<Seq<char>>::empty();
    proof {
        assert(orig.skip(0) =~= orig);
    }
    while rest.len() > 0
        invariant
            rest@.len() <= orig.len(),
            rest@ == orig.skip(orig.len() - rest@.len()),
            spec_dedup(orig) == r@ + spec_dedup_ids(rest@, seen),
            forall|id: Seq<char>| #[trigger] seen.contains(id)
                <==> exists|j: int| 0 <= j < r@.len() && (#[trigger] r@[j].id@) == id,
        decreases rest@.len(),
    {
        let ghost k = orig.len() - rest@.len();
        let ghost rest0 = rest@;
        let x = rest.remove(0);
        proof {
            assert(rest@ =~= rest0.drop_first());
            assert(rest0.drop_first() =~= orig.skip(k + 1));
        }
        let found = holds_id(&r, &x.id);
        proof {
            assert(found == seen.contains(x.id@));
        }
        if !found {
            let ghost prev_r = r@;
            let ghost prev_seen = seen;
            proof {
                assert(r@ + (seq![x] + spec_dedup_ids(rest0.drop_first(), seen.insert(x.id@)))
                    =~= r@.push(x) + spec_dedup_ids(rest0.drop_first(), seen.insert(x.id@)));
            }
            r.push(x);
            proof {
                seen = seen.insert(x.id@);
                assert forall|id: Seq<char>| #[trigger] seen.contains(id)
                    implies exists|j: int| 0 <= j < r@.len() && (#[trigger] r@[j].id@) == id by {
                    if id == x.id@ {
                        assert(r@[r@.len() - 1].id@ == id);
                    } else {
                        assert(prev_seen.contains(id));
                        let j = choose|j: int|
                            0 <= j < prev_r.len() && (#[trigger] prev_r[j].id@) == id;
                        assert(r@[j].id@ == id);
                    }
                }
                assert forall|id: Seq<char>|
                    exists|j: int| 0 <= j < r@.len() && (#[trigger] r@[j].id@) == id
                    implies #[trigger] seen.contains(id) by {
                    let j = choose|j: int| 0 <= j < r@.len() && (#[trigger] r@[j].id@) == id;
                    if j < prev_r.len() {
                        assert(prev_r[j].id@ == id);
                        assert(prev_seen.contains(id));
                    } else {
                        assert(id == x.id@);
                    }
                }
            }
        }
    }
    proof {
        assert(rest@.len() == 0);
        assert(spec_dedup_ids(rest@, seen) =~= Seq::<MemoryEntry>::empty());
        assert(r@ =~= r@ + spec_dedup_ids(rest@, seen));
    }
    r
}

proof fn lemma_dedup_ids_distinct(s: Seq<MemoryEntry>, seen: Set<Seq<char>>)
    ensures
        forall|i: int, j: int| 0 <= i < j < spec_dedup_ids(s, seen).len() ==>
            (#[trigger] spec_dedup_ids(s, seen)[i]).id@
                != (#[trigger] spec_dedup_ids(s, seen)[j]).id@,
        forall|i: int| 0 <= i < spec_dedup_ids(s, seen).len() ==>
            !seen.contains((#[trigger] spec_dedup_ids(s, seen)[i]).id@),
    decreases s.len(),
{
    if s.len() > 0 {
        let d = spec_dedup_ids(s, seen);
        if seen.contains(s[0].id@) {
            let rest = spec_dedup_ids(s.drop_first(), seen);
            lemma_dedup_ids_distinct(s.drop_first(), seen);
            assert forall|i: int, j: int| 0 <= i < j < d.len() implies
                (#[trigger] d[i]).id@ != (#[trigger] d[j]).id@ by {
                assert(d[i] == rest[i]);
                assert(d[j] == rest[j]);
            }
            assert forall|i: int| 0 <= i < d.len() implies
                !seen.contains((#[trigger] d[i]).id@) by {
                assert(d[i] == rest[i]);
            }
        } else {
            let seen2 = seen.insert(s[0].id@);
            let rest = spec_dedup_ids(s.drop_first(), seen2);
            lemma_dedup_ids_distinct(s.drop_first(), seen2);
            assert forall|i: int, j: int| 0 <= i < j < d.len() implies
                (#[trigger] d[i]).id@ != (#[trigger] d[j]).id@ by {
                if i == 0 {
                    assert(d[j] == rest[j - 1]);
                    assert(!seen2.contains(rest[j - 1].id@));
                } else {
                    assert(d[i] == rest[i - 1]);
                    assert(d[j] == rest[j - 1]);
                }
            }
            assert forall|i: int| 0 <= i < d.len() implies
                !seen.contains((#[trigger] d[i]).id@) by {
                if i > 0 {
                    assert(d[i] == rest[i - 1]);
                    assert(!seen2.contains(rest[i - 1].id@));
                }
            }
        }
    }
}

/// Deduplication is complete: the deduplicated retrieval holds each
/// identifier at most once, whatever was retrieved.
pub proof fn lemma_dedup_distinct(s: Seq<MemoryEntry>)
    ensures
        forall|i: int, j: int| 0 <= i < j < spec_dedup(s).len() ==>
            (#[trigger] spec_dedup(s)[i]).id@ != (#[trigger] spec_dedup(s)[j]).id@,
{
    lemma_dedup_ids_distinct(s, Set::<Seq<char>>::empty());
}

/// The retrieved context merged into one block: the content of each
/// entry, one per line, in ranking order.
pub open spec fn spec_merged_context(s: Seq<MemoryEntry>) -> Seq<char>
    decreases s.len(),
{
    if s.len() == 0 {
        Seq::<char>::empty()
    } else {
        spec_merged_context(s.drop_last()) + s.last().content@ + "\n"@
    }
}

/// Concatenates the content of retrieved entries, one per line.
pub fn merge_retrieved(entries: &Vec<MemoryEntry>) -> (r: String)
    ensures
        r@ == spec_merged_context(entries@),
{
    let mut out: Vec<char> = Vec::new();
    let n = entries.len();
    let mut i: usize = 0;
    while i < n
        invariant
            n == entries@.len(),
            i <= n,
            out@ == spec_merged_context(entries@.take(i as int)),
        decreases n - i,
    {
        push_str_chars(&mut out, entries[i].content.as_str());
        push_str_chars(&mut out, "\n");
        proof {
            let t = entries@.take(i + 1);
            assert(t.drop_last() =~= entries@.take(i as int));
            assert(t.last() == entries@[i as int]);
            assert(out@ =~= spec_merged_context(t));
        }
        i = i + 1;
    }
    proof {
        assert(entries@.take(n as int) =~= entries@);
    }
    string_of(out.as_slice())
}

/// Places the merged retrieved context before the thread messages as one
/// leading system message.
pub fn build_context_messages(retrieved_context: String, thread_msgs: Vec<Message>) -> (r: Vec<Message>)
    ensures
        r@.len() == thread_msgs@.len() + 1,
        r@[0].role == Role::System,
        r@[0].content == retrieved_context,
        forall|i: int| 0 <= i < thread_msgs@.len() ==> r@[i + 1] == thread_msgs@[i],
{
    let mut r: Vec<Message> = Vec::new();
    r.push(system_message(retrieved_context));
    let mut rest = thread_msgs;
    r.append(&mut rest);
    r
}

/// Assembles the full request for the model gateway: the system prompt
/// first; then, when retrieved context is supplied, a header, the
/// retrieved messages and a separator, all as system messages; then the
/// conversation messages.
pub fn assemble_request_messages(
    system_prompt: &str,
    searched: Option<Vec<Message>>,
    messages: Vec<Message>,
) -> (r: Vec<Message>)
    ensures
        r@[0].role == Role::System && r@[0].content@ == system_prompt@,
        match searched {
            Some(sm) => {
                &&& r@.len() == 3 + sm@.len() + messages@.len()
                &&& r@[1].role == Role::System
                &&& r@[1].content@ ==
                    "The following messages may help you when responding to the user. You can use them, or not."@
                &&& forall|i: int| 0 <= i < sm@.len() ==> r@[2 + i] == sm@[i]
                &&& r@[2 + sm@.len() as int].role == Role::System
                &&& r@[2 + sm@.len() as int].content@ ==
                    "End of search results. Following are messages from the conversation thread history."@
                &&& forall|i: int| 0 <= i < messages@.len() ==> r@[3 + sm@.len() + i] == messages@[i]
            }
            None => {
                &&& r@.len() == 1 + messages@.len()
                &&& forall|i: int| 0 <= i < messages@.len() ==> r@[1 + i] == messages@[i]
            }
        },
{
    let mut all: Vec<Message> = Vec::new();
    all.push(system_message(system_prompt.to_owned()));
    match searched {
        Some(sm) => {
            all.push(system_message(
                "The following messages may help you when responding to the user. You can use them, or not.".to_owned(),
            ));
            let mut sm_moved = sm;
            all.append(&mut sm_moved);
            all.push(system_message(
                "End of search results. Following are messages from the conversation thread history.".to_owned(),
            ));
        }
        None => {}
    }
    let mut msgs = messages;
    all.append(&mut msgs);
    all
}

} // verus!
