//! The memory writer: persisted memory entries and the deterministic
//! derivation of their identifiers from canonical content.

use vstd::prelude::*;

use crate::json::{spec_chat_log_json, spec_post_json, chat_log_json, post_to_json_string};
use crate::post::{PostData, PostEmbed};

verus! {

/// A persisted memory entry: immutable once written, only superseded by
/// new entries with new identifiers. The embedding is carried as the bit
/// patterns of its 32-bit float components; this crate never reads them.
#[derive(Debug, Clone)]
pub struct MemoryEntry {
    /// Deterministic identifier, derived from the canonical content.
    pub id: String,
    /// The canonical content of the entry.
    pub content: String,
    /// Bit patterns of the embedding vector's components.
    pub embedding: Vec<u32>,
    /// Seconds since the Unix epoch.
    pub timestamp: i64,
    /// Tags partitioning memory by purpose and gating retrieval filters.
    pub tags: Vec<String>,
    /// "user" or "assistant".
    pub role: String,
    /// The kind of entry, e.g. "bluesky_post".
    pub entry_type: String,
    /// Shared by all entries of one logical conversation.
    pub conversation_id: String,
}

/// The name-based identifier derived from a content string: a function
/// of the content alone, so deriving it twice from equal content yields
/// equal identifiers.
pub uninterp spec fn uuid_v5_dns(content: Seq<char>) -> Seq<char>;

/// Relies on `uuid::Uuid::new_v5` with the DNS namespace: the result is a
/// SHA-1-based name UUID, a function of the name bytes alone, and its
/// hyphenated rendering is always 36 characters.
#[verifier::external_body]
fn uuid_v5_string(content: &str) -> (r: String)
    ensures
        r@ == uuid_v5_dns(content@),
        r@.len() == 36,
{
    uuid::Uuid::new_v5(&uuid::Uuid::NAMESPACE_DNS, content.as_bytes()).to_string()
}

/// The tags an archived source post is stored under: "bluesky_post",
/// plus one tag describing its embed payload when it has one.
pub open spec fn spec_post_tags(p: PostData) -> Seq<Seq<char>> {
    seq!["bluesky_post"@] + match p.embed {
        None => Seq::<Seq<char>>::empty(),
        Some(PostEmbed::Images(_)) => seq!["has_images"@],
        Some(PostEmbed::External(_)) => seq!["has_external_link"@],
        Some(PostEmbed::Video(_)) => seq!["has_video"@],
        Some(PostEmbed::Record(_)) => seq!["has_quote"@],
        Some(PostEmbed::RecordWithMedia(_)) => seq!["has_quote_with_media"@],
    }
}

/// Builds the memory entry recording a finished exchange. The canonical
/// content is the serialized {triggering message, final reply, author
/// identifier} record; the identifier is derived from that content and
/// the conversation identifier from the thread's root URI, so repeating
/// the same exchange writes the same entry.
pub fn make_exchange_entry(
    post: &str,
    response: &str,
    poster_did: &str,
    root_uri: &str,
    embedding: Vec<u32>,
    timestamp: i64,
) -> (e: MemoryEntry)
    ensures
        e.content@ == spec_chat_log_json(post@, response@, poster_did@),
        e.id@ == uuid_v5_dns(spec_chat_log_json(post@, response@, poster_did@)),
        e.conversation_id@ == uuid_v5_dns(root_uri@),
        e.embedding == embedding,
        e.timestamp == timestamp,
        e.tags@.len() == 1 && e.tags@[0]@ == "stm"@,
        e.role@ == "user"@,
        e.entry_type@ == "bluesky_post"@,
{
    let content = chat_log_json(post, response, poster_did);
    let id = uuid_v5_string(content.as_str());
    let conversation_id = uuid_v5_string(root_uri);
    let mut tags: Vec<String> = Vec::new();
    tags.push("stm".to_owned());
    MemoryEntry {
        id,
        content,
        embedding,
        timestamp,
        tags,
        role: "user".to_owned(),
        entry_type: "bluesky_post".to_owned(),
        conversation_id,
    }
}

/// Builds the archival memory entry for one reconstructed source post.
/// The identifier is derived from the post's URI and the conversation
/// identifier from its author's identifier; the content is the
/// serialized post.
pub fn create_memory_entry_from_post(
    p: &PostData,
    embedding: Vec<u32>,
    timestamp: i64,
) -> (e: MemoryEntry)
    ensures
        e.content@ == spec_post_json(*p),
        e.id@ == uuid_v5_dns(p.uri@),
        e.conversation_id@ == uuid_v5_dns(p.author_did@),
        e.embedding == embedding,
        e.timestamp == timestamp,
        e.tags@.map_values(|t: String| t@) == spec_post_tags(*p),
        e.role@ == "user"@,
        e.entry_type@ == "bluesky_post"@,
{
    let content = post_to_json_string(p);
    let id = uuid_v5_string(p.uri.as_str());
    let conversation_id = uuid_v5_string(p.author_did.as_str());
    let mut tags: Vec<String> = Vec::new();
    tags.push("bluesky_post".to_owned());
    match &p.embed {
        None => {}
        Some(PostEmbed::Images(_)) => tags.push("has_images".to_owned()),
        Some(PostEmbed::External(_)) => tags.push("has_external_link".to_owned()),
        Some(PostEmbed::Video(_)) => tags.push("has_video".to_owned()),
        Some(PostEmbed::Record(_)) => tags.push("has_quote".to_owned()),
        Some(PostEmbed::RecordWithMedia(_)) => tags.push("has_quote_with_media".to_owned()),
    }
    proof {
        assert(tags@.map_values(|t: String| t@) =~= spec_post_tags(*p));
    }
    MemoryEntry {
        id,
        content,
        embedding,
        timestamp,
        tags,
        role: "user".to_owned(),
        entry_type: "bluesky_post".to_owned(),
        conversation_id,
    }
}

/// Selects the entry a paired lookup answers with: among the entries
/// whose timestamp lies strictly after `t`, the one with the earliest
/// timestamp; on equal timestamps the one retrieved first.
pub fn earliest_after(entries: &Vec<MemoryEntry>, t: i64) -> (r: Option<usize>)
    ensures
        match r {
            Some(i) => i < entries@.len() && entries@[i as int].timestamp > t && forall|j: int|
                0 <= j < entries@.len() && (#[trigger] entries@[j]).timestamp > t
                    ==> entries@[i as int].timestamp < entries@[j].timestamp || (entries@[
                    i as int
                ].timestamp == entries@[j].timestamp && i <= j),
            None => forall|j: int| 0 <= j < entries@.len()
                ==> (#[trigger] entries@[j]).timestamp <= t,
        },
{
    let n = entries.len();
    let mut best: Option<usize> = None;
    let mut j: usize = 0;
    while j < n
        invariant
            j <= n,
            n == entries@.len(),
            match best {
                Some(i) => i < j && entries@[i as int].timestamp > t && forall|k: int|
                    0 <= k < j && (#[trigger] entries@[k]).timestamp > t
                        ==> entries@[i as int].timestamp < entries@[k].timestamp || (entries@[
                        i as int
                    ].timestamp == entries@[k].timestamp && i <= k),
                None => forall|k: int| 0 <= k < j
                    ==> (#[trigger] entries@[k]).timestamp <= t,
            },
        decreases n - j,
    {
        if entries[j].timestamp > t {
            match best {
                Some(i) => {
                    if entries[j].timestamp < entries[i].timestamp {
                        best = Some(j);
                    }
                }
                None => {
                    best = Some(j);
                }
            }
        }
        j = j + 1;
    }
    best
}

/// Deriving a memory identifier is idempotent: equal canonical content
/// always yields an equal identifier, however often it is hashed.
pub proof fn lemma_memory_id_idempotent(c1: Seq<char>, c2: Seq<char>)
    requires
        c1 == c2,
    ensures
        uuid_v5_dns(c1) == uuid_v5_dns(c2),
{
}

} // verus!
