//! The conversational turn orchestrator, as an explicit state machine:
//! every decision of one turn — from the inbound event through thread
//! reconstruction, retrieval-augmented context assembly and the bounded
//! tool-call generation loop to the memory write — is a transition from
//! a state and an event to the next state and one action. The caller
//! performs each action (the network and model work) and feeds the
//! outcome back as the next event.

use vstd::prelude::*;

use crate::context::{
    build_context_messages, dedup_entries, embedding_texts, json_to_chatmessages, merge_retrieved,
    spec_dedup, spec_merged_context, Message, Role,
};
use crate::genloop::{
    append_tool_round, new_loop_state, loop_step, spec_final_answer, spec_loop_step,
    spec_tool_result_text, state_view, strip_reasoning, GenLoopState, LoopDecision,
    LoopDecisionKind, SpecLoopState, ToolOutcome,
};
use crate::json::spec_chat_log_json;
use crate::memory::{make_exchange_entry, uuid_v5_dns, MemoryEntry};
use crate::post::{spec_embedding_text, spec_post_message};
use crate::relevance::{
    is_addressed_to_agent, is_allowed, spec_addressed, spec_allowed, InboundPost, ReplyRefInfo,
};
use crate::thread::{chain_posts, reconstruct_thread, ThreadViewNode};
use crate::toolcall::{spec_parse_tool_calls, views_of_calls, ToolCall};
use crate::text::{push_str_chars, string_of};

verus! {

/// How many similar memory entries are retrieved for context.
pub const RETRIEVAL_TOP_K: usize = 2;

/// An inbound commit event, decoded: a created post and where it lives
/// in the social graph.
pub struct InboundEvent {
    pub author_did: String,
    pub collection: String,
    pub rkey: String,
    pub cid: String,
    pub post: InboundPost,
}

/// How one finished turn ended.
#[derive(Debug)]
pub enum TurnOutcome {
    /// The post did not address the agent, or its author is not
    /// allowed: a silent no-op.
    NotAddressed,
    /// The final answer was empty after trimming: an intentional
    /// non-reply.
    NoReply,
    /// A reply was posted and the exchange recorded.
    Replied,
    /// A collaborator failed; the event is abandoned.
    Failed(TurnError),
}

/// The failure that ended a turn.
#[derive(Debug)]
pub enum TurnError {
    ThreadFetch(String),
    Embedding(String),
    Retrieval(String),
    Generation(String),
    ReplyPost(String),
    MemoryWrite(String),
}

/// Where a turn stands, with the data the next step needs.
pub enum TurnPhase {
    /// Waiting for the thread view rooted at the triggering post.
    FetchingThread,
    /// Waiting for the embeddings of the thread texts.
    Embedding { thread_msgs: Vec<Message>, last_user_text: String },
    /// Waiting for the retrieved similar memory.
    Retrieving { thread_msgs: Vec<Message>, last_user_text: String },
    /// Waiting for a model output on the assembled messages.
    Generating { messages: Vec<Message>, guard: GenLoopState, last_user_text: String },
    /// Waiting for the results of an executed batch of tool calls.
    RunningTools {
        messages: Vec<Message>,
        guard: GenLoopState,
        last_output: String,
        last_user_text: String,
    },
    /// Waiting for the reply to be posted.
    PostingReply { final_text: String, last_user_text: String },
    /// Waiting for the embedding of the finished exchange.
    EmbeddingExchange { final_text: String, last_user_text: String },
    /// Waiting for the memory write of the exchange entry.
    StoringMemory,
    /// The turn is over.
    Finished,
}

/// One turn in progress.
pub struct Turn {
    pub author_did: String,
    pub at_uri: String,
    pub reply_ref: ReplyRefInfo,
    pub now: i64,
    pub phase: TurnPhase,
}

/// What a collaborator reported back, matching the action asked for.
pub enum TurnEvent {
    /// The fetched thread view, or a fetch or shape error.
    Thread(Result<ThreadViewNode, String>),
    /// One embedding per requested text, in order, as component bit
    /// patterns.
    Embeddings(Result<Vec<Vec<u32>>, String>),
    /// The ranked similar entries.
    Retrieved(Result<Vec<MemoryEntry>, String>),
    /// The model's output text.
    ModelOutput(Result<String, String>),
    /// One outcome per executed tool call, in order.
    ToolResults(Vec<ToolOutcome>),
    /// Whether the reply was published.
    ReplyPosted(Result<(), String>),
    /// Whether the memory entry was written.
    Stored(Result<(), String>),
}

/// What the caller must do next.
pub enum TurnAction {
    /// Fetch the full-depth thread view rooted at `uri`.
    FetchThread { uri: String },
    /// Embed the texts, in order, in one batch.
    Embed { texts: Vec<String> },
    /// Retrieve the `top_k` entries most similar to `query` that carry
    /// the tag.
    Retrieve { query: Vec<u32>, tag: String, top_k: usize },
    /// Request a model output for the messages.
    CallModel { messages: Vec<Message> },
    /// Execute all calls, in order, each independently.
    RunTools { calls: Vec<ToolCall> },
    /// Publish `text` as a reply with the given references.
    PostReply { reply: ReplyRefInfo, text: String },
    /// Write the entry to the memory store.
    StoreMemory { entry: MemoryEntry },
    /// Nothing: the turn ended with this outcome.
    Done { outcome: TurnOutcome },
}

/// The AT-URI of a record: authority, collection and record key.
pub open spec fn spec_at_uri(did: Seq<char>, collection: Seq<char>, rkey: Seq<char>) -> Seq<char> {
    "at://"@ + did + "/"@ + collection + "/"@ + rkey
}

/// Renders the AT-URI of a record.
pub fn at_uri(did: &str, collection: &str, rkey: &str) -> (r: String)
    ensures
        r@ == spec_at_uri(did@, collection@, rkey@),
{
    let mut out: Vec<char> = Vec::new();
    push_str_chars(&mut out, "at://");
    push_str_chars(&mut out, did);
    push_str_chars(&mut out, "/");
    push_str_chars(&mut out, collection);
    push_str_chars(&mut out, "/");
    push_str_chars(&mut out, rkey);
    assert(out@ =~= spec_at_uri(did@, collection@, rkey@));
    string_of(out.as_slice())
}

/// Builds the reply references for the agent's reply: the triggering
/// post becomes the parent; the root is kept from the triggering post's
/// own references, or is the triggering post itself when it started the
/// thread.
pub fn build_reply_ref(reply: Option<ReplyRefInfo>, cid: &str, uri: &str) -> (r: ReplyRefInfo)
    ensures
        r.parent_uri@ == uri@,
        r.parent_cid@ == cid@,
        match reply {
            Some(prev) => r.root_uri == prev.root_uri && r.root_cid == prev.root_cid,
            None => r.root_uri@ == uri@ && r.root_cid@ == cid@,
        },
{
    match reply {
        Some(prev) => ReplyRefInfo {
            parent_uri: uri.to_owned(),
            parent_cid: cid.to_owned(),
            root_uri: prev.root_uri,
            root_cid: prev.root_cid,
        },
        None => ReplyRefInfo {
            parent_uri: uri.to_owned(),
            parent_cid: cid.to_owned(),
            root_uri: uri.to_owned(),
            root_cid: cid.to_owned(),
        },
    }
}

/// Copies a message.
pub fn copy_message(m: &Message) -> (r: Message)
    ensures
        r == *m,
{
    Message {
        role: m.role,
        content: m.content.clone(),
        tool_name: match &m.tool_name {
            Some(n) => Some(n.clone()),
            None => None,
        },
    }
}

/// Copies a list of messages.
pub fn copy_messages(msgs: &Vec<Message>) -> (r: Vec<Message>)
    ensures
        r@ == msgs@,
{
    let n = msgs.len();
    let mut r: Vec<Message> = Vec::new();
    let mut i: usize = 0;
    while i < n
        invariant
            n == msgs@.len(),
            i <= n,
            r@ =~= msgs@.take(i as int),
        decreases n - i,
    {
        r.push(copy_message(&msgs[i]));
        assert(msgs@.take(i + 1) =~= msgs@.take(i as int).push(msgs@[i as int]));
        i = i + 1;
    }
    assert(msgs@.take(n as int) =~= msgs@);
    r
}

/// Copies reply references.
pub fn copy_reply_ref(r0: &ReplyRefInfo) -> (r: ReplyRefInfo)
    ensures
        r == *r0,
{
    ReplyRefInfo {
        parent_uri: r0.parent_uri.clone(),
        parent_cid: r0.parent_cid.clone(),
        root_uri: r0.root_uri.clone(),
        root_cid: r0.root_cid.clone(),
    }
}

/// Which event answers which phase.
pub open spec fn spec_event_fits(phase: TurnPhase, ev: TurnEvent) -> bool {
    match phase {
        TurnPhase::FetchingThread => ev is Thread,
        TurnPhase::Embedding { .. } => ev is Embeddings,
        TurnPhase::Retrieving { .. } => ev is Retrieved,
        TurnPhase::Generating { .. } => ev is ModelOutput,
        TurnPhase::RunningTools { .. } => ev is ToolResults,
        TurnPhase::PostingReply { .. } => ev is ReplyPosted,
        TurnPhase::EmbeddingExchange { .. } => ev is Embeddings,
        TurnPhase::StoringMemory => ev is Stored,
        TurnPhase::Finished => false,
    }
}

/// Starts a turn for an inbound event. A post that does not address the
/// agent, or whose author is not allowed, ends the turn at once as a
/// silent no-op; otherwise the turn asks for the thread rooted at the
/// triggering post.
pub fn turn_begin(
    event: InboundEvent,
    agent_did: &str,
    allowlist: &Option<Vec<String>>,
    now: i64,
) -> (r: (Turn, TurnAction))
    ensures
        !(spec_addressed(event.post, agent_did@) && spec_allowed(*allowlist, event.author_did@))
            ==> {
            &&& r.0.phase is Finished
            &&& r.1 matches TurnAction::Done { outcome: TurnOutcome::NotAddressed }
        },
        spec_addressed(event.post, agent_did@) && spec_allowed(*allowlist, event.author_did@)
            ==> {
            &&& r.0.phase is FetchingThread
            &&& r.0.author_did == event.author_did
            &&& r.0.at_uri@ == spec_at_uri(event.author_did@, event.collection@, event.rkey@)
            &&& r.0.now == now
            &&& r.0.reply_ref.parent_uri@ == r.0.at_uri@
            &&& r.0.reply_ref.parent_cid@ == event.cid@
            &&& (match event.post.reply {
                Some(prev) => r.0.reply_ref.root_uri == prev.root_uri && r.0.reply_ref.root_cid
                    == prev.root_cid,
                None => r.0.reply_ref.root_uri@ == r.0.at_uri@ && r.0.reply_ref.root_cid@
                    == event.cid@,
            })
            &&& (r.1 matches TurnAction::FetchThread { uri } && uri@ == r.0.at_uri@)
        },
{
    let InboundEvent { author_did, collection, rkey, cid, post } = event;
    let addressed = is_addressed_to_agent(&post, agent_did);
    let allowed = is_allowed(allowlist, author_did.as_str());
    if !addressed || !allowed {
        let turn = Turn {
            author_did,
            at_uri: String::new(),
            reply_ref: ReplyRefInfo {
                parent_uri: String::new(),
                parent_cid: String::new(),
                root_uri: String::new(),
                root_cid: String::new(),
            },
            now,
            phase: TurnPhase::Finished,
        };
        return (turn, TurnAction::Done { outcome: TurnOutcome::NotAddressed });
    }
    let uri = at_uri(author_did.as_str(), collection.as_str(), rkey.as_str());
    let reply_ref = build_reply_ref(post.reply, cid.as_str(), uri.as_str());
    let action_uri = uri.clone();
    let turn = Turn {
        author_did,
        at_uri: uri,
        reply_ref,
        now,
        phase: TurnPhase::FetchingThread,
    };
    (turn, TurnAction::FetchThread { uri: action_uri })
}

/// Advances a turn by one event. The caller performs the returned
/// action and feeds its outcome back as the next event.
pub fn turn_step(t: Turn, ev: TurnEvent) -> (r: (Turn, TurnAction))
    requires
        spec_event_fits(t.phase, ev),
    ensures
        r.0.author_did == t.author_did,
        r.0.at_uri == t.at_uri,
        r.0.reply_ref == t.reply_ref,
        r.0.now == t.now,
        // thread fetched: reconstruct, render, and ask for embeddings
        t.phase is FetchingThread ==> (match ev {
            TurnEvent::Thread(res) => match res {
                Ok(root) => {
                    let posts = chain_posts(root).reverse();
                    &&& (r.0.phase matches TurnPhase::Embedding { thread_msgs, last_user_text } && {
                        &&& thread_msgs@.len() == posts.len()
                        &&& forall|i: int| 0 <= i < posts.len() ==> {
                            &&& (#[trigger] thread_msgs@[i]).role == Role::User
                            &&& thread_msgs@[i].content@ == spec_post_message(posts[i])
                        }
                        &&& last_user_text@ == spec_post_message(posts.last())
                    })
                    &&& (r.1 matches TurnAction::Embed { texts } && {
                        &&& texts@.len() == posts.len()
                        &&& forall|i: int| 0 <= i < posts.len() ==>
                            (#[trigger] texts@[i])@ == spec_embedding_text(posts[i])
                    })
                }
                Err(e) => r.0.phase is Finished && (r.1 matches TurnAction::Done {
                    outcome: TurnOutcome::Failed(TurnError::ThreadFetch(m)),
                } && m == e),
            },
            _ => true,
        }),
        // embeddings arrived: query the store with the newest message's vector
        t.phase matches TurnPhase::Embedding { thread_msgs, last_user_text } ==> (match ev {
            TurnEvent::Embeddings(res) => match res {
                Ok(vecs) => {
                    if vecs@.len() == 0 {
                        r.0.phase is Finished && (r.1 matches TurnAction::Done {
                            outcome: TurnOutcome::Failed(TurnError::Embedding(m)),
                        } && m@ == "empty embedding batch"@)
                    } else {
                        &&& (r.0.phase matches TurnPhase::Retrieving {
                            thread_msgs: tm2,
                            last_user_text: lt2,
                        } && tm2 == thread_msgs && lt2 == last_user_text)
                        &&& (r.1 matches TurnAction::Retrieve { query, tag, top_k } && {
                            &&& query == vecs@.last()
                            &&& tag@ == "stm"@
                            &&& top_k == RETRIEVAL_TOP_K
                        })
                    }
                }
                Err(e) => r.0.phase is Finished && (r.1 matches TurnAction::Done {
                    outcome: TurnOutcome::Failed(TurnError::Embedding(m)),
                } && m == e),
            },
            _ => true,
        }),
        // retrieval arrived: deduplicate, merge, and call the model
        t.phase matches TurnPhase::Retrieving { thread_msgs, last_user_text } ==> (match ev {
            TurnEvent::Retrieved(res) => match res {
                Ok(entries) => {
                    let ctx = spec_merged_context(spec_dedup(entries@));
                    &&& (r.0.phase matches TurnPhase::Generating {
                        messages,
                        guard,
                        last_user_text: lt2,
                    } && {
                        &&& messages@.len() == thread_msgs@.len() + 1
                        &&& messages@[0].role == Role::System
                        &&& messages@[0].content@ == ctx
                        &&& forall|i: int| 0 <= i < thread_msgs@.len() ==>
                            messages@[i + 1] == thread_msgs@[i]
                        &&& state_view(guard) == (SpecLoopState { last: None, times: 0 })
                        &&& lt2 == last_user_text
                    })
                    &&& (r.1 matches TurnAction::CallModel { messages: m2 }
                        && (r.0.phase matches TurnPhase::Generating { messages, .. }
                        && m2@ == messages@))
                }
                Err(e) => r.0.phase is Finished && (r.1 matches TurnAction::Done {
                    outcome: TurnOutcome::Failed(TurnError::Retrieval(m)),
                } && m == e),
            },
            _ => true,
        }),
        // model output arrived: finish, abort, or execute the batch
        t.phase matches TurnPhase::Generating { messages, guard, last_user_text } ==> (match ev {
            TurnEvent::ModelOutput(res) => match res {
                Ok(output) => {
                    let calls = spec_parse_tool_calls(output@);
                    let (g2, kind) = spec_loop_step(state_view(guard), calls);
                    if kind == LoopDecisionKind::Execute {
                        &&& (r.0.phase matches TurnPhase::RunningTools {
                            messages: m2,
                            guard: guard2,
                            last_output,
                            last_user_text: lt2,
                        } && {
                            &&& m2 == messages
                            &&& state_view(guard2) == g2
                            &&& last_output == output
                            &&& lt2 == last_user_text
                        })
                        &&& (r.1 matches TurnAction::RunTools { calls: cs }
                            && views_of_calls(cs@) == calls)
                    } else {
                        let fin = spec_final_answer(output@);
                        if fin.len() == 0 {
                            r.0.phase is Finished && (r.1 matches TurnAction::Done {
                                outcome: TurnOutcome::NoReply,
                            })
                        } else {
                            &&& (r.0.phase matches TurnPhase::PostingReply {
                                final_text,
                                last_user_text: lt2,
                            } && final_text@ == fin && lt2 == last_user_text)
                            &&& (r.1 matches TurnAction::PostReply { reply, text }
                                && reply == t.reply_ref && text@ == fin)
                        }
                    }
                }
                Err(e) => r.0.phase is Finished && (r.1 matches TurnAction::Done {
                    outcome: TurnOutcome::Failed(TurnError::Generation(m)),
                } && m == e),
            },
            _ => true,
        }),
        // tool results arrived: append the round and request a follow-up
        t.phase matches TurnPhase::RunningTools { messages, guard, last_output, last_user_text }
            ==> (match ev {
            TurnEvent::ToolResults(results) => {
                &&& (r.0.phase matches TurnPhase::Generating {
                    messages: m2,
                    guard: guard2,
                    last_user_text: lt2,
                } && {
                    &&& m2@.len() == messages@.len() + 1 + results@.len()
                    &&& forall|i: int| 0 <= i < messages@.len() ==> m2@[i] == messages@[i]
                    &&& m2@[messages@.len() as int].role == Role::Assistant
                    &&& m2@[messages@.len() as int].content == last_output
                    &&& forall|i: int| 0 <= i < results@.len() ==> {
                        let m = m2@[messages@.len() + 1 + i];
                        &&& m.role == Role::Tool
                        &&& (m.tool_name matches Some(n) && n == (#[trigger] results@[i]).tool_name)
                        &&& m.content@ == spec_tool_result_text(results@[i])
                    }
                    &&& state_view(guard2) == state_view(guard)
                    &&& lt2 == last_user_text
                })
                &&& (r.1 matches TurnAction::CallModel { messages: m3 }
                    && (r.0.phase matches TurnPhase::Generating { messages: m2, .. }
                    && m3@ == m2@))
            },
            _ => true,
        }),
        // reply posted: embed the finished exchange
        t.phase matches TurnPhase::PostingReply { final_text, last_user_text } ==> (match ev {
            TurnEvent::ReplyPosted(res) => match res {
                Ok(_) => {
                    &&& (r.0.phase matches TurnPhase::EmbeddingExchange {
                        final_text: ft2,
                        last_user_text: lt2,
                    } && ft2 == final_text && lt2 == last_user_text)
                    &&& (r.1 matches TurnAction::Embed { texts } && texts@.len() == 1
                        && texts@[0]@ == spec_chat_log_json(
                        last_user_text@,
                        final_text@,
                        t.author_did@,
                    ))
                }
                Err(e) => r.0.phase is Finished && (r.1 matches TurnAction::Done {
                    outcome: TurnOutcome::Failed(TurnError::ReplyPost(m)),
                } && m == e),
            },
            _ => true,
        }),
        // exchange embedded: write the deterministic memory entry
        t.phase matches TurnPhase::EmbeddingExchange { final_text, last_user_text } ==> (match ev {
            TurnEvent::Embeddings(res) => match res {
                Ok(vecs) => {
                    if vecs@.len() == 0 {
                        r.0.phase is Finished && (r.1 matches TurnAction::Done {
                            outcome: TurnOutcome::Failed(TurnError::Embedding(m)),
                        } && m@ == "empty embedding batch"@)
                    } else {
                        let canonical = spec_chat_log_json(
                            last_user_text@,
                            final_text@,
                            t.author_did@,
                        );
                        &&& r.0.phase is StoringMemory
                        &&& (r.1 matches TurnAction::StoreMemory { entry } && {
                            &&& entry.content@ == canonical
                            &&& entry.id@ == uuid_v5_dns(canonical)
                            &&& entry.conversation_id@ == uuid_v5_dns(t.reply_ref.root_uri@)
                            &&& entry.embedding == vecs@[0]
                            &&& entry.timestamp == t.now
                            &&& entry.tags@.len() == 1 && entry.tags@[0]@ == "stm"@
                            &&& entry.role@ == "user"@
                            &&& entry.entry_type@ == "bluesky_post"@
                        })
                    }
                }
                Err(e) => r.0.phase is Finished && (r.1 matches TurnAction::Done {
                    outcome: TurnOutcome::Failed(TurnError::Embedding(m)),
                } && m == e),
            },
            _ => true,
        }),
        // memory written: the turn is over
        t.phase is StoringMemory ==> (match ev {
            TurnEvent::Stored(res) => match res {
                Ok(_) => r.0.phase is Finished && (r.1 matches TurnAction::Done {
                    outcome: TurnOutcome::Replied,
                }),
                Err(e) => r.0.phase is Finished && (r.1 matches TurnAction::Done {
                    outcome: TurnOutcome::Failed(TurnError::MemoryWrite(m)),
                } && m == e),
            },
            _ => true,
        }),
{
    let Turn { author_did, at_uri, reply_ref, now, phase } = t;
    let (phase2, action): (TurnPhase, TurnAction) = match (phase, ev) {
        (TurnPhase::FetchingThread, TurnEvent::Thread(res)) => match res {
            Ok(root) => {
                let posts = reconstruct_thread(root);
                let thread_msgs = json_to_chatmessages(&posts);
                let texts = embedding_texts(&posts);
                let last_user_text = thread_msgs[thread_msgs.len() - 1].content.clone();
                (
                    TurnPhase::Embedding { thread_msgs, last_user_text },
                    TurnAction::Embed { texts },
                )
            }
            Err(e) => (
                TurnPhase::Finished,
                TurnAction::Done { outcome: TurnOutcome::Failed(TurnError::ThreadFetch(e)) },
            ),
        },
        (TurnPhase::Embedding { thread_msgs, last_user_text }, TurnEvent::Embeddings(res)) => match res {
            Ok(mut vecs) => {
                if vecs.len() == 0 {
                    (
                        TurnPhase::Finished,
                        TurnAction::Done {
                            outcome: TurnOutcome::Failed(
                                TurnError::Embedding("empty embedding batch".to_owned()),
                            ),
                        },
                    )
                } else {
                    let query = match vecs.pop() {
                        Some(q) => q,
                        None => Vec::new(),
                    };
                    (
                        TurnPhase::Retrieving { thread_msgs, last_user_text },
                        TurnAction::Retrieve {
                            query,
                            tag: "stm".to_owned(),
                            top_k: RETRIEVAL_TOP_K,
                        },
                    )
                }
            }
            Err(e) => (
                TurnPhase::Finished,
                TurnAction::Done { outcome: TurnOutcome::Failed(TurnError::Embedding(e)) },
            ),
        },
        (TurnPhase::Retrieving { thread_msgs, last_user_text }, TurnEvent::Retrieved(res)) => match res {
            Ok(entries) => {
                let deduped = dedup_entries(entries);
                let merged = merge_retrieved(&deduped);
                let messages = build_context_messages(merged, thread_msgs);
                let sent = copy_messages(&messages);
                let guard = new_loop_state();
                (
                    TurnPhase::Generating { messages, guard, last_user_text },
                    TurnAction::CallModel { messages: sent },
                )
            }
            Err(e) => (
                TurnPhase::Finished,
                TurnAction::Done { outcome: TurnOutcome::Failed(TurnError::Retrieval(e)) },
            ),
        },
        (TurnPhase::Generating { messages, guard, last_user_text }, TurnEvent::ModelOutput(res)) => match res {
            Ok(output) => {
                let mut guard2 = guard;
                let decision = loop_step(&mut guard2, output.as_str());
                match decision {
                    LoopDecision::Execute(calls) => (
                        TurnPhase::RunningTools {
                            messages,
                            guard: guard2,
                            last_output: output,
                            last_user_text,
                        },
                        TurnAction::RunTools { calls },
                    ),
                    _ => {
                        let final_text = strip_reasoning(output.as_str());
                        if final_text.as_str().is_empty() {
                            (
                                TurnPhase::Finished,
                                TurnAction::Done { outcome: TurnOutcome::NoReply },
                            )
                        } else {
                            let text = final_text.clone();
                            let reply = copy_reply_ref(&reply_ref);
                            (
                                TurnPhase::PostingReply { final_text, last_user_text },
                                TurnAction::PostReply { reply, text },
                            )
                        }
                    }
                }
            }
            Err(e) => (
                TurnPhase::Finished,
                TurnAction::Done { outcome: TurnOutcome::Failed(TurnError::Generation(e)) },
            ),
        },
        (
            TurnPhase::RunningTools { messages, guard, last_output, last_user_text },
            TurnEvent::ToolResults(results),
        ) => {
            let mut m2 = messages;
            append_tool_round(&mut m2, last_output, results);
            let sent = copy_messages(&m2);
            (
                TurnPhase::Generating { messages: m2, guard, last_user_text },
                TurnAction::CallModel { messages: sent },
            )
        },
        (TurnPhase::PostingReply { final_text, last_user_text }, TurnEvent::ReplyPosted(res)) => match res {
            Ok(_) => {
                let canonical = crate::json::chat_log_json(
                    last_user_text.as_str(),
                    final_text.as_str(),
                    author_did.as_str(),
                );
                let mut texts: Vec<String> = Vec::new();
                texts.push(canonical);
                (
                    TurnPhase::EmbeddingExchange { final_text, last_user_text },
                    TurnAction::Embed { texts },
                )
            }
            Err(e) => (
                TurnPhase::Finished,
                TurnAction::Done { outcome: TurnOutcome::Failed(TurnError::ReplyPost(e)) },
            ),
        },
        (
            TurnPhase::EmbeddingExchange { final_text, last_user_text },
            TurnEvent::Embeddings(res),
        ) => match res {
            Ok(mut vecs) => {
                if vecs.len() == 0 {
                    (
                        TurnPhase::Finished,
                        TurnAction::Done {
                            outcome: TurnOutcome::Failed(
                                TurnError::Embedding("empty embedding batch".to_owned()),
                            ),
                        },
                    )
                } else {
                    let bits = vecs.remove(0);
                    let entry = make_exchange_entry(
                        last_user_text.as_str(),
                        final_text.as_str(),
                        author_did.as_str(),
                        reply_ref.root_uri.as_str(),
                        bits,
                        now,
                    );
                    (TurnPhase::StoringMemory, TurnAction::StoreMemory { entry })
                }
            }
            Err(e) => (
                TurnPhase::Finished,
                TurnAction::Done { outcome: TurnOutcome::Failed(TurnError::Embedding(e)) },
            ),
        },
        (TurnPhase::StoringMemory, TurnEvent::Stored(res)) => match res {
            Ok(_) => (TurnPhase::Finished, TurnAction::Done { outcome: TurnOutcome::Replied }),
            Err(e) => (
                TurnPhase::Finished,
                TurnAction::Done { outcome: TurnOutcome::Failed(TurnError::MemoryWrite(e)) },
            ),
        },
        _ => {
            proof {
                assert(false);
            }
            (TurnPhase::Finished, TurnAction::Done { outcome: TurnOutcome::NotAddressed })
        }
    };
    (Turn { author_did, at_uri, reply_ref, now, phase: phase2 }, action)
}

} // verus!
