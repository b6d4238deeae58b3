use aigis::context::{
    assemble_request_messages, build_context_messages, dedup_entries, json_to_chatmessages,
    json_to_stringified_chatmessages, merge_retrieved, user_message, Role,
};
use aigis::memory::MemoryEntry;
use aigis::post::{PostData, PostEmbed, PostEmbedExternal};

fn entry(id: &str, content: &str) -> MemoryEntry {
    MemoryEntry {
        id: id.to_string(),
        content: content.to_string(),
        embedding: vec![1, 2, 3],
        timestamp: 1,
        tags: vec!["stm".to_string()],
        role: "user".to_string(),
        entry_type: "bluesky_post".to_string(),
        conversation_id: "conv".to_string(),
    }
}

fn post(author: &str, text: &str) -> PostData {
    PostData {
        author: author.to_string(),
        text: text.to_string(),
        uri: "at://x/y/z".to_string(),
        author_did: "did:plc:x".to_string(),
        indexed_at: None,
        embed: None,
    }
}

#[test]
fn dedup_keeps_first_occurrence_in_order() {
    let input = vec![entry("a", "A"), entry("b", "B"), entry("a", "A2"), entry("c", "C")];
    let r = dedup_entries(input);
    assert_eq!(r.len(), 3);
    assert_eq!(r[0].id, "a");
    assert_eq!(r[0].content, "A");
    assert_eq!(r[1].id, "b");
    assert_eq!(r[2].id, "c");
}

#[test]
fn dedup_of_all_equal_ids_keeps_one() {
    let input = vec![entry("k", "one"), entry("k", "two"), entry("k", "three")];
    let r = dedup_entries(input);
    assert_eq!(r.len(), 1);
    assert_eq!(r[0].content, "one");
}

#[test]
fn dedup_of_empty_is_empty() {
    let r = dedup_entries(Vec::new());
    assert!(r.is_empty());
}

#[test]
fn merged_context_is_one_line_per_entry() {
    let entries = vec![entry("a", "first fact"), entry("b", "second fact")];
    let merged = merge_retrieved(&entries);
    assert_eq!(merged, "first fact\nsecond fact\n");
}

#[test]
fn duplicate_retrieval_appears_once_in_context() {
    let input = vec![entry("same", "the one memory"), entry("same", "the one memory")];
    let deduped = dedup_entries(input);
    let merged = merge_retrieved(&deduped);
    assert_eq!(merged, "the one memory\n");
    assert_eq!(merged.matches("the one memory").count(), 1);
}

#[test]
fn thread_renders_as_plain_user_messages() {
    let mut p = post("Alice (alice.test)", "hi there");
    p.embed = Some(PostEmbed::External(PostEmbedExternal {
        uri: "https://example.com".to_string(),
        title: Some("Example".to_string()),
        description: None,
    }));
    let msgs = json_to_chatmessages(&vec![p]);
    assert_eq!(msgs.len(), 1);
    assert_eq!(msgs[0].role, Role::User);
    // plain rendering carries no embed annotation
    assert_eq!(msgs[0].content, "Alice (alice.test): hi there");
}

#[test]
fn stringified_thread_is_one_user_message() {
    let msgs = json_to_stringified_chatmessages(&vec![post("A", "x")]);
    assert_eq!(msgs.len(), 1);
    assert_eq!(msgs[0].role, Role::User);
    assert!(msgs[0].content.starts_with("[{\"author\":\"A\""));
}

#[test]
fn context_message_leads_the_thread() {
    let thread = vec![user_message("A: one".to_string()), user_message("B: two".to_string())];
    let msgs = build_context_messages("ctx\n".to_string(), thread);
    assert_eq!(msgs.len(), 3);
    assert_eq!(msgs[0].role, Role::System);
    assert_eq!(msgs[0].content, "ctx\n");
    assert_eq!(msgs[1].content, "A: one");
    assert_eq!(msgs[2].content, "B: two");
}

#[test]
fn request_assembly_without_search() {
    let msgs = assemble_request_messages("prompt", None, vec![user_message("hi".to_string())]);
    assert_eq!(msgs.len(), 2);
    assert_eq!(msgs[0].role, Role::System);
    assert_eq!(msgs[0].content, "prompt");
    assert_eq!(msgs[1].content, "hi");
}

#[test]
fn request_assembly_with_search_brackets_the_results() {
    let searched = vec![user_message("old exchange".to_string())];
    let msgs = assemble_request_messages(
        "prompt",
        Some(searched),
        vec![user_message("hi".to_string())],
    );
    assert_eq!(msgs.len(), 5);
    assert_eq!(msgs[0].content, "prompt");
    assert_eq!(
        msgs[1].content,
        "The following messages may help you when responding to the user. You can use them, or not."
    );
    assert_eq!(msgs[2].content, "old exchange");
    assert_eq!(
        msgs[3].content,
        "End of search results. Following are messages from the conversation thread history."
    );
    assert_eq!(msgs[4].content, "hi");
}
