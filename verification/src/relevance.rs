//! The relevance filter: does an inbound post address the agent, and is
//! its author permitted to trigger a reply?

use vstd::prelude::*;

use crate::post::PostEmbed;
use crate::text::{chars_of, find_from, find_seq, lemma_find_seq_bounds, matches_at};

verus! {

/// The reply references carried by an inbound post: its immediate parent
/// and the root of its thread.
pub struct ReplyRefInfo {
    pub parent_uri: String,
    pub parent_cid: String,
    pub root_uri: String,
    pub root_cid: String,
}

/// An inbound post as decoded from a commit event: the fields the
/// relevance filter and the orchestrator read. Mention annotations are
/// decoded into the targeted identifiers; unrecognized annotation or
/// embed kinds are dropped by the decoder and never reach this type.
pub struct InboundPost {
    /// The text of the post.
    pub text: String,
    /// Reply references, when the post is a reply.
    pub reply: Option<ReplyRefInfo>,
    /// Identifiers targeted by rich-text mention annotations, in order.
    pub mention_dids: Vec<String>,
    /// The embed payload, when the post carries a recognized one.
    pub embed: Option<PostEmbed>,
}

/// `pat` occurs somewhere in `s`.
pub open spec fn spec_contains(s: Seq<char>, pat: Seq<char>) -> bool {
    exists|i: int| matches_at(s, pat, i)
}

pub proof fn lemma_find_seq_complete(s: Seq<char>, pat: Seq<char>, from: int)
    requires
        from >= 0,
        find_seq(s, pat, from) is None,
    ensures
        forall|i: int| from <= i ==> !matches_at(s, pat, i),
    decreases s.len() + 1 - from,
{
    if !(from < 0 || from + pat.len() > s.len()) {
        lemma_find_seq_complete(s, pat, from + 1);
    }
}

/// Does `pat` occur somewhere in `s`?
pub fn contains_str(s: &str, pat: &str) -> (r: bool)
    ensures
        r == spec_contains(s@, pat@),
{
    let sc = chars_of(s);
    let pc = chars_of(pat);
    match find_from(sc.as_slice(), pc.as_slice(), 0) {
        Some(i) => {
            proof {
                lemma_find_seq_bounds(s@, pat@, 0);
            }
            true
        }
        None => {
            proof {
                lemma_find_seq_complete(s@, pat@, 0);
            }
            false
        }
    }
}

/// The post is a reply whose immediate parent URI contains the agent's
/// identifier.
pub open spec fn spec_reply_trigger(p: InboundPost, agent_did: Seq<char>) -> bool {
    match p.reply {
        Some(r) => spec_contains(r.parent_uri@, agent_did),
        None => false,
    }
}

/// Some mention annotation targets exactly the agent's identifier.
pub open spec fn spec_mention_trigger(p: InboundPost, agent_did: Seq<char>) -> bool {
    exists|i: int| 0 <= i < p.mention_dids@.len() && #[trigger] p.mention_dids@[i]@ == agent_did
}

/// The post quotes a record, alone or bundled with media, whose URI
/// contains the agent's identifier.
pub open spec fn spec_quote_trigger(p: InboundPost, agent_did: Seq<char>) -> bool {
    match p.embed {
        Some(PostEmbed::Record(r)) => spec_contains(r.record@, agent_did),
        Some(PostEmbed::RecordWithMedia(rm)) => spec_contains(rm.record.record@, agent_did),
        _ => false,
    }
}

/// The post addresses the agent: it is a reply to the agent, mentions the
/// agent, or quotes one of the agent's records.
pub open spec fn spec_addressed(p: InboundPost, agent_did: Seq<char>) -> bool {
    spec_reply_trigger(p, agent_did)
        || spec_mention_trigger(p, agent_did)
        || spec_quote_trigger(p, agent_did)
}

/// Decides whether an inbound post addresses the agent. True exactly
/// when one of the three trigger relations holds: the post replies to a
/// post of the agent, mentions the agent, or quotes a record of the
/// agent; false for a post lacking all three.
pub fn is_addressed_to_agent(p: &InboundPost, agent_did: &str) -> (r: bool)
    ensures
        r == spec_addressed(*p, agent_did@),
{
    match &p.reply {
        Some(rref) => {
            if contains_str(rref.parent_uri.as_str(), agent_did) {
                return true;
            }
        }
        None => {}
    }
    let did_string = agent_did.to_owned();
    let n = p.mention_dids.len();
    let mut i: usize = 0;
    while i < n
        invariant
            n == p.mention_dids@.len(),
            i <= n,
            did_string@ == agent_did@,
            forall|k: int| 0 <= k < i ==> #[trigger] p.mention_dids@[k]@ != agent_did@,
        decreases n - i,
    {
        if p.mention_dids[i].eq(&did_string) {
            assert(p.mention_dids@[i as int]@ == agent_did@);
            return true;
        }
        i = i + 1;
    }
    match &p.embed {
        Some(PostEmbed::Record(r)) => contains_str(r.record.as_str(), agent_did),
        Some(PostEmbed::RecordWithMedia(rm)) => contains_str(rm.record.record.as_str(), agent_did),
        _ => false,
    }
}

/// The author is permitted to trigger a reply: no allowlist is
/// configured, or the author's identifier matches an entry exactly.
pub open spec fn spec_allowed(allowlist: Option<Vec<String>>, author_did: Seq<char>) -> bool {
    match allowlist {
        None => true,
        Some(l) => exists|i: int| 0 <= i < l@.len() && #[trigger] l@[i]@ == author_did,
    }
}

/// Decides whether the author of an inbound post may trigger a reply.
pub fn is_allowed(allowlist: &Option<Vec<String>>, author_did: &str) -> (r: bool)
    ensures
        r == spec_allowed(*allowlist, author_did@),
{
    match allowlist {
        None => true,
        Some(l) => {
            let did_string = author_did.to_owned();
            let n = l.len();
            let mut i: usize = 0;
            while i < n
                invariant
                    allowlist matches Some(ls) && ls@ == l@,
                    n == l@.len(),
                    i <= n,
                    did_string@ == author_did@,
                    forall|k: int| 0 <= k < i ==> #[trigger] l@[k]@ != author_did@,
                decreases n - i,
            {
                if l[i].eq(&did_string) {
                    assert(l@[i as int]@ == author_did@);
                    return true;
                }
                i = i + 1;
            }
            false
        }
    }
}

} // verus!
