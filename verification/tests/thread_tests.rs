use aigis::post::PostData;
use aigis::thread::{reconstruct_thread, ThreadParent, ThreadViewNode};

fn post(author: &str, text: &str, ts: &str) -> PostData {
    PostData {
        author: author.to_string(),
        text: text.to_string(),
        uri: format!("at://did:plc:{}/app.bsky.feed.post/1", author),
        author_did: format!("did:plc:{}", author),
        indexed_at: Some(ts.to_string()),
        embed: None,
    }
}

#[test]
fn single_post_yields_one_element_thread() {
    let root = ThreadViewNode {
        post: post("alice", "solo", "2024-05-01T10:00:00Z"),
        parent: ThreadParent::Missing,
    };
    let r = reconstruct_thread(root);
    assert_eq!(r.len(), 1);
    assert_eq!(r[0].text, "solo");
}

#[test]
fn chain_is_reversed_to_chronological_order() {
    // fetched newest-first: the triggering post, its parent, the root
    let oldest = ThreadViewNode {
        post: post("alice", "first", "2024-05-01T10:00:00Z"),
        parent: ThreadParent::Missing,
    };
    let middle = ThreadViewNode {
        post: post("bob", "second", "2024-05-01T10:05:00Z"),
        parent: ThreadParent::Post(Box::new(oldest)),
    };
    let newest = ThreadViewNode {
        post: post("carol", "third", "2024-05-01T10:10:00Z"),
        parent: ThreadParent::Post(Box::new(middle)),
    };
    let r = reconstruct_thread(newest);
    assert_eq!(r.len(), 3);
    assert_eq!(r[0].text, "first");
    assert_eq!(r[1].text, "second");
    assert_eq!(r[2].text, "third");
    // non-decreasing timestamps, oldest first
    for w in r.windows(2) {
        let a = w[0].indexed_at.as_ref().unwrap();
        let b = w[1].indexed_at.as_ref().unwrap();
        assert!(a <= b);
    }
}

#[test]
fn traversal_stops_at_unreachable_parent() {
    let newest = ThreadViewNode {
        post: post("alice", "reachable", "2024-05-01T10:10:00Z"),
        parent: ThreadParent::NotFound,
    };
    let r = reconstruct_thread(newest);
    assert_eq!(r.len(), 1);
    assert_eq!(r[0].text, "reachable");

    let blocked = ThreadViewNode {
        post: post("bob", "visible", "2024-05-01T10:10:00Z"),
        parent: ThreadParent::Blocked,
    };
    assert_eq!(reconstruct_thread(blocked).len(), 1);

    let odd = ThreadViewNode {
        post: post("carol", "seen", "2024-05-01T10:10:00Z"),
        parent: ThreadParent::Unrecognized,
    };
    assert_eq!(reconstruct_thread(odd).len(), 1);
}
