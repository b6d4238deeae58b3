use aigis::memory::MemoryEntry;
use aigis::post::PostData;
use aigis::relevance::InboundPost;
use aigis::thread::{ThreadParent, ThreadViewNode};
use aigis::turn::{
    turn_begin, turn_step, InboundEvent, Turn, TurnAction, TurnError, TurnEvent, TurnOutcome,
    TurnPhase,
};

const AGENT: &str = "did:plc:agent";

fn mentioning_event() -> InboundEvent {
    InboundEvent {
        author_did: "did:plc:alice".to_string(),
        collection: "app.bsky.feed.post".to_string(),
        rkey: "rkey1".to_string(),
        cid: "cid1".to_string(),
        post: InboundPost {
            text: "hello bot".to_string(),
            reply: None,
            mention_dids: vec![AGENT.to_string()],
            embed: None,
        },
    }
}

fn alice_post() -> PostData {
    PostData {
        author: "Alice (alice.test)".to_string(),
        text: "hello bot".to_string(),
        uri: "at://did:plc:alice/app.bsky.feed.post/rkey1".to_string(),
        author_did: "did:plc:alice".to_string(),
        indexed_at: Some("2024-05-01T10:00:00Z".to_string()),
        embed: None,
    }
}

fn entry(id: &str, content: &str) -> MemoryEntry {
    MemoryEntry {
        id: id.to_string(),
        content: content.to_string(),
        embedding: vec![1],
        timestamp: 1,
        tags: vec!["stm".to_string()],
        role: "user".to_string(),
        entry_type: "bluesky_post".to_string(),
        conversation_id: "c".to_string(),
    }
}

fn call_output(name: &str, args: &str) -> String {
    format!(
        "<\u{ff5c}tool\u{2581}call\u{2581}begin\u{ff5c}>function<\u{ff5c}tool\u{2581}sep\u{ff5c}>{}\n```json\n{}\n```<\u{ff5c}tool\u{2581}call\u{2581}end\u{ff5c}>",
        name, args
    )
}

/// Drives a fresh turn up to the first model call, retrieving nothing.
fn start_turn(retrieved: Vec<MemoryEntry>) -> Turn {
    let (t, action) = turn_begin(mentioning_event(), AGENT, &None, 1700000000);
    match &action {
        TurnAction::FetchThread { uri } => {
            assert_eq!(uri, "at://did:plc:alice/app.bsky.feed.post/rkey1")
        }
        _ => panic!("expected a thread fetch"),
    }
    let (t, action) = turn_step(
        t,
        TurnEvent::Thread(Ok(ThreadViewNode { post: alice_post(), parent: ThreadParent::Missing })),
    );
    match &action {
        TurnAction::Embed { texts } => assert_eq!(texts, &vec!["hello bot".to_string()]),
        _ => panic!("expected an embedding request"),
    }
    let (t, action) = turn_step(t, TurnEvent::Embeddings(Ok(vec![vec![5, 6]])));
    match &action {
        TurnAction::Retrieve { query, tag, top_k } => {
            assert_eq!(query, &vec![5, 6]);
            assert_eq!(tag, "stm");
            assert_eq!(*top_k, 2);
        }
        _ => panic!("expected a retrieval"),
    }
    let (t, action) = turn_step(t, TurnEvent::Retrieved(Ok(retrieved)));
    match &action {
        TurnAction::CallModel { messages } => {
            assert_eq!(messages.len(), 2);
            assert_eq!(messages[1].content, "Alice (alice.test): hello bot");
        }
        _ => panic!("expected a model call"),
    }
    t
}

#[test]
fn unaddressed_event_is_a_silent_no_op() {
    let mut ev = mentioning_event();
    ev.post.mention_dids.clear();
    let (t, action) = turn_begin(ev, AGENT, &None, 0);
    assert!(matches!(t.phase, TurnPhase::Finished));
    assert!(matches!(action, TurnAction::Done { outcome: TurnOutcome::NotAddressed }));
}

#[test]
fn disallowed_author_is_a_silent_no_op() {
    let allow = Some(vec!["did:plc:someoneelse".to_string()]);
    let (t, action) = turn_begin(mentioning_event(), AGENT, &allow, 0);
    assert!(matches!(t.phase, TurnPhase::Finished));
    assert!(matches!(action, TurnAction::Done { outcome: TurnOutcome::NotAddressed }));
}

#[test]
fn plain_answer_turn_replies_and_stores_memory() {
    let t = start_turn(Vec::new());
    // the model answers with no tool call
    let (t, action) = turn_step(t, TurnEvent::ModelOutput(Ok("  hi alice  ".to_string())));
    let reply_root = match &action {
        TurnAction::PostReply { reply, text } => {
            assert_eq!(text, "hi alice");
            assert_eq!(reply.parent_uri, "at://did:plc:alice/app.bsky.feed.post/rkey1");
            assert_eq!(reply.parent_cid, "cid1");
            // a post that started its thread is its own root
            assert_eq!(reply.root_uri, "at://did:plc:alice/app.bsky.feed.post/rkey1");
            reply.root_uri.clone()
        }
        _ => panic!("expected the reply to be posted"),
    };
    let (t, action) = turn_step(t, TurnEvent::ReplyPosted(Ok(())));
    let canonical = match &action {
        TurnAction::Embed { texts } => {
            assert_eq!(texts.len(), 1);
            assert_eq!(
                texts[0],
                "{\"post\":\"Alice (alice.test): hello bot\",\"response\":\"hi alice\",\"poster_did\":\"did:plc:alice\"}"
            );
            texts[0].clone()
        }
        _ => panic!("expected the exchange to be embedded"),
    };
    let (t, action) = turn_step(t, TurnEvent::Embeddings(Ok(vec![vec![7, 8, 9]])));
    match &action {
        TurnAction::StoreMemory { entry } => {
            assert_eq!(entry.content, canonical);
            assert_eq!(entry.tags, vec!["stm".to_string()]);
            assert_eq!(entry.embedding, vec![7, 8, 9]);
            assert_eq!(entry.timestamp, 1700000000);
            assert_eq!(entry.id.len(), 36);
            let _ = &reply_root;
        }
        _ => panic!("expected a memory write"),
    }
    let (t, action) = turn_step(t, TurnEvent::Stored(Ok(())));
    assert!(matches!(t.phase, TurnPhase::Finished));
    assert!(matches!(action, TurnAction::Done { outcome: TurnOutcome::Replied }));
}

#[test]
fn tool_call_turn_runs_the_tool_and_follows_up() {
    let t = start_turn(Vec::new());
    let output = call_output("calculator", "{\"expr\": \"2+2\"}");
    let (t, action) = turn_step(t, TurnEvent::ModelOutput(Ok(output.clone())));
    match &action {
        TurnAction::RunTools { calls } => {
            assert_eq!(calls.len(), 1);
            assert_eq!(calls[0].tool_name, "calculator");
            assert_eq!(calls[0].tool_args, "{\"expr\": \"2+2\"}");
        }
        _ => panic!("expected the tools to run"),
    }
    let results = vec![aigis::genloop::ToolOutcome {
        tool_name: "calculator".to_string(),
        result: Ok("4".to_string()),
    }];
    let (t, action) = turn_step(t, TurnEvent::ToolResults(results));
    match &action {
        TurnAction::CallModel { messages } => {
            // context + thread message + assistant round + one tool result
            assert_eq!(messages.len(), 4);
            assert_eq!(messages[2].content, output);
            assert_eq!(messages[3].content, "4");
            assert_eq!(messages[3].tool_name.as_deref(), Some("calculator"));
        }
        _ => panic!("expected a follow-up model call"),
    }
    // the follow-up has no further call: the loop ends
    let (_t, action) = turn_step(t, TurnEvent::ModelOutput(Ok("the answer is 4".to_string())));
    match &action {
        TurnAction::PostReply { text, .. } => assert_eq!(text, "the answer is 4"),
        _ => panic!("expected the reply to be posted"),
    }
}

#[test]
fn repeated_tool_calls_abort_with_the_last_output() {
    let mut t = start_turn(Vec::new());
    let output = call_output("calculator", "{\"expr\": \"2+2\"}");
    let results = || vec![aigis::genloop::ToolOutcome {
        tool_name: "calculator".to_string(),
        result: Ok("4".to_string()),
    }];
    for _ in 0..3 {
        let (t2, action) = turn_step(t, TurnEvent::ModelOutput(Ok(output.clone())));
        assert!(matches!(action, TurnAction::RunTools { .. }));
        let (t3, action) = turn_step(t2, TurnEvent::ToolResults(results()));
        assert!(matches!(action, TurnAction::CallModel { .. }));
        t = t3;
    }
    // fourth identical round: abort, and the output itself (with its
    // call block stripped of nothing but reasoning) becomes the reply
    let (_t, action) = turn_step(t, TurnEvent::ModelOutput(Ok(output.clone())));
    match &action {
        TurnAction::PostReply { text, .. } => assert_eq!(text, &output),
        _ => panic!("expected the last output to be posted"),
    }
}

#[test]
fn empty_answer_means_no_reply() {
    let t = start_turn(Vec::new());
    let (t, action) =
        turn_step(t, TurnEvent::ModelOutput(Ok("<think>nothing to say</think>   ".to_string())));
    assert!(matches!(t.phase, TurnPhase::Finished));
    assert!(matches!(action, TurnAction::Done { outcome: TurnOutcome::NoReply }));
}

#[test]
fn duplicate_retrieval_reaches_the_model_once() {
    let t = start_turn(vec![entry("dup", "remembered line"), entry("dup", "remembered line")]);
    match &t.phase {
        TurnPhase::Generating { messages, .. } => {
            assert_eq!(messages[0].content, "remembered line\n");
            assert_eq!(messages[0].content.matches("remembered line").count(), 1);
        }
        _ => panic!("expected the turn to be generating"),
    }
}

#[test]
fn collaborator_failures_abort_the_event() {
    let (t, _) = turn_begin(mentioning_event(), AGENT, &None, 0);
    let (t, action) = turn_step(t, TurnEvent::Thread(Err("boom".to_string())));
    assert!(matches!(t.phase, TurnPhase::Finished));
    match action {
        TurnAction::Done { outcome: TurnOutcome::Failed(e) } => match e {
            aigis::turn::TurnError::ThreadFetch(msg) => assert_eq!(msg, "boom"),
            _ => panic!("expected a thread fetch failure"),
        },
        _ => panic!("expected a failure outcome"),
    }
}

#[test]
fn each_collaborator_failure_has_its_own_error() {
    // embedding fails
    let (t, _) = turn_begin(mentioning_event(), AGENT, &None, 0);
    let (t, _) = turn_step(
        t,
        TurnEvent::Thread(Ok(ThreadViewNode { post: alice_post(), parent: ThreadParent::Missing })),
    );
    let (_, action) = turn_step(t, TurnEvent::Embeddings(Err("down".to_string())));
    assert!(matches!(
        action,
        TurnAction::Done { outcome: TurnOutcome::Failed(TurnError::Embedding(_)) }
    ));

    // retrieval fails
    let (t, _) = turn_begin(mentioning_event(), AGENT, &None, 0);
    let (t, _) = turn_step(
        t,
        TurnEvent::Thread(Ok(ThreadViewNode { post: alice_post(), parent: ThreadParent::Missing })),
    );
    let (t, _) = turn_step(t, TurnEvent::Embeddings(Ok(vec![vec![1]])));
    let (_, action) = turn_step(t, TurnEvent::Retrieved(Err("down".to_string())));
    assert!(matches!(
        action,
        TurnAction::Done { outcome: TurnOutcome::Failed(TurnError::Retrieval(_)) }
    ));

    // generation fails
    let t = start_turn(Vec::new());
    let (_, action) = turn_step(t, TurnEvent::ModelOutput(Err("down".to_string())));
    assert!(matches!(
        action,
        TurnAction::Done { outcome: TurnOutcome::Failed(TurnError::Generation(_)) }
    ));

    // posting the reply fails
    let t = start_turn(Vec::new());
    let (t, _) = turn_step(t, TurnEvent::ModelOutput(Ok("hello".to_string())));
    let (_, action) = turn_step(t, TurnEvent::ReplyPosted(Err("down".to_string())));
    assert!(matches!(
        action,
        TurnAction::Done { outcome: TurnOutcome::Failed(TurnError::ReplyPost(_)) }
    ));

    // the memory write fails
    let t = start_turn(Vec::new());
    let (t, _) = turn_step(t, TurnEvent::ModelOutput(Ok("hello".to_string())));
    let (t, _) = turn_step(t, TurnEvent::ReplyPosted(Ok(())));
    let (t, _) = turn_step(t, TurnEvent::Embeddings(Ok(vec![vec![1]])));
    let (_, action) = turn_step(t, TurnEvent::Stored(Err("down".to_string())));
    assert!(matches!(
        action,
        TurnAction::Done { outcome: TurnOutcome::Failed(TurnError::MemoryWrite(_)) }
    ));

    // an empty embedding batch is an embedding failure
    let (t, _) = turn_begin(mentioning_event(), AGENT, &None, 0);
    let (t, _) = turn_step(
        t,
        TurnEvent::Thread(Ok(ThreadViewNode { post: alice_post(), parent: ThreadParent::Missing })),
    );
    let (_, action) = turn_step(t, TurnEvent::Embeddings(Ok(Vec::new())));
    assert!(matches!(
        action,
        TurnAction::Done { outcome: TurnOutcome::Failed(TurnError::Embedding(_)) }
    ));
}

#[test]
fn reply_keeps_the_existing_thread_root() {
    let mut ev = mentioning_event();
    ev.post.reply = Some(aigis::relevance::ReplyRefInfo {
        parent_uri: "at://did:plc:agent/app.bsky.feed.post/p".to_string(),
        parent_cid: "cidp".to_string(),
        root_uri: "at://did:plc:someone/app.bsky.feed.post/r".to_string(),
        root_cid: "cidr".to_string(),
    });
    let (t, _) = turn_begin(ev, AGENT, &None, 0);
    assert_eq!(t.reply_ref.parent_uri, "at://did:plc:alice/app.bsky.feed.post/rkey1");
    assert_eq!(t.reply_ref.parent_cid, "cid1");
    assert_eq!(t.reply_ref.root_uri, "at://did:plc:someone/app.bsky.feed.post/r");
    assert_eq!(t.reply_ref.root_cid, "cidr");
}
