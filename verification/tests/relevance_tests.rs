use aigis::post::{PostEmbed, PostEmbedRecord, PostEmbedRecordWithMedia, PostEmbedVideo};
use aigis::relevance::{is_addressed_to_agent, is_allowed, InboundPost, ReplyRefInfo};

const AGENT: &str = "did:plc:agent";

fn plain_post() -> InboundPost {
    InboundPost {
        text: "hello world".to_string(),
        reply: None,
        mention_dids: Vec::new(),
        embed: None,
    }
}

fn reply_to(parent_uri: &str) -> Option<ReplyRefInfo> {
    Some(ReplyRefInfo {
        parent_uri: parent_uri.to_string(),
        parent_cid: "cid-parent".to_string(),
        root_uri: "at://did:plc:other/app.bsky.feed.post/root".to_string(),
        root_cid: "cid-root".to_string(),
    })
}

#[test]
fn not_addressed_without_any_trigger() {
    let mut p = plain_post();
    assert!(!is_addressed_to_agent(&p, AGENT));
    // a reply to someone else, a mention of someone else, a quote of
    // someone else: still not addressed
    p.reply = reply_to("at://did:plc:other/app.bsky.feed.post/xyz");
    p.mention_dids = vec!["did:plc:bystander".to_string()];
    p.embed = Some(PostEmbed::Record(PostEmbedRecord {
        record: "at://did:plc:other/app.bsky.feed.post/q".to_string(),
        title: None,
    }));
    assert!(!is_addressed_to_agent(&p, AGENT));
}

#[test]
fn addressed_by_reply_parent() {
    let mut p = plain_post();
    p.reply = reply_to("at://did:plc:agent/app.bsky.feed.post/xyz");
    assert!(is_addressed_to_agent(&p, AGENT));
}

#[test]
fn addressed_by_mention() {
    let mut p = plain_post();
    p.mention_dids = vec!["did:plc:bystander".to_string(), AGENT.to_string()];
    assert!(is_addressed_to_agent(&p, AGENT));
}

#[test]
fn mention_must_match_exactly() {
    let mut p = plain_post();
    p.mention_dids = vec!["did:plc:agent2".to_string()];
    assert!(!is_addressed_to_agent(&p, AGENT));
}

#[test]
fn addressed_by_quote() {
    let mut p = plain_post();
    p.embed = Some(PostEmbed::Record(PostEmbedRecord {
        record: "at://did:plc:agent/app.bsky.feed.post/q".to_string(),
        title: None,
    }));
    assert!(is_addressed_to_agent(&p, AGENT));
}

#[test]
fn addressed_by_quote_with_media() {
    let mut p = plain_post();
    p.embed = Some(PostEmbed::RecordWithMedia(PostEmbedRecordWithMedia {
        record: PostEmbedRecord {
            record: "at://did:plc:agent/app.bsky.feed.post/q".to_string(),
            title: None,
        },
        media: Vec::new(),
    }));
    assert!(is_addressed_to_agent(&p, AGENT));
}

#[test]
fn video_embed_is_no_trigger() {
    let mut p = plain_post();
    p.embed = Some(PostEmbed::Video(PostEmbedVideo {
        video: "blobref".to_string(),
        duration: Some(12),
    }));
    assert!(!is_addressed_to_agent(&p, AGENT));
}

#[test]
fn allowed_when_no_allowlist() {
    assert!(is_allowed(&None, "did:plc:anyone"));
}

#[test]
fn allowed_only_on_exact_entry() {
    let list = Some(vec!["did:plc:friend".to_string(), "did:plc:pal".to_string()]);
    assert!(is_allowed(&list, "did:plc:pal"));
    assert!(!is_allowed(&list, "did:plc:stranger"));
    assert!(!is_allowed(&list, "did:plc:pa"));
}
