//! Thread reconstruction: walking the reply-parent chain of a fetched
//! thread view to produce the conversation in chronological order.

use vstd::prelude::*;

use crate::post::PostData;
use crate::text::{lemma_lex_le_refl, lemma_lex_le_trans, lex_le};

verus! {

/// One node of a fetched thread view: a post together with what is known
/// about its reply parent.
pub struct ThreadViewNode {
    pub post: PostData,
    pub parent: ThreadParent,
}

/// The parent link of a thread-view node. Traversal stops at every
/// variant but `Post`.
pub enum ThreadParent {
    /// The post is not a reply: the thread starts here.
    Missing,
    /// The parent exists but could not be fetched.
    NotFound,
    /// The parent is hidden by a block.
    Blocked,
    /// The parent has a shape this crate does not recognize.
    Unrecognized,
    /// The parent post itself.
    Post(Box<ThreadViewNode>),
}

/// The posts along the parent chain, child first (newest to oldest).
pub open spec fn chain_posts(n: ThreadViewNode) -> Seq<PostData>
    decreases n,
{
    seq![n.post] + match n.parent {
        ThreadParent::Post(p) => chain_posts(*p),
        _ => Seq::<PostData>::empty(),
    }
}

/// The timestamp key a post is ordered by: its indexing timestamp, or the
/// empty string when none was recorded.
pub open spec fn spec_post_ts(p: PostData) -> Seq<char> {
    match p.indexed_at {
        Some(s) => s@,
        None => Seq::<char>::empty(),
    }
}

/// A well-formed thread view: along the parent chain, every parent was
/// indexed no later than its child.
pub open spec fn wf_thread(n: ThreadViewNode) -> bool
    decreases n,
{
    match n.parent {
        ThreadParent::Post(p) => lex_le(spec_post_ts(p.post), spec_post_ts(n.post)) && wf_thread(*p),
        _ => true,
    }
}

/// Reconstructs the conversation from a fetched thread view: walks the
/// parent chain iteratively from the given (newest) post and returns the
/// visited posts in chronological order, oldest first. A post without a
/// reachable parent yields a one-element thread.
pub fn reconstruct_thread(root: ThreadViewNode) -> (r: Vec<PostData>)
    ensures
        r@ == chain_posts(root).reverse(),
        r@.len() == chain_posts(root).len(),
{
    let ghost total = chain_posts(root);
    let mut collected: Vec<PostData> = Vec::new();
    let mut cur = root;
    loop
        invariant_except_break
            total =~= collected@ + chain_posts(cur),
        ensures
            total =~= collected@,
        decreases cur,
    {
        let ghost prev = cur;
        let ThreadViewNode { post, parent } = cur;
        collected.push(post);
        match parent {
            ThreadParent::Post(p) => {
                cur = *p;
            }
            _ => {
                proof {
                    assert(chain_posts(prev) =~= seq![prev.post]);
                }
                break;
            }
        }
    }
    let mut r: Vec<PostData> = Vec::new();
    proof {
        assert(collected@ =~= total.take(collected@.len() as int));
    }
    loop
        invariant
            total.len() == collected@.len() + r@.len(),
            collected@ == total.take(collected@.len() as int),
            forall|k: int| 0 <= k < r@.len() ==> r@[k] == total[total.len() - 1 - k],
        ensures
            r@.len() == total.len(),
            forall|k: int| 0 <= k < r@.len() ==> r@[k] == total[total.len() - 1 - k],
        decreases collected.len(),
    {
        let ghost cl = collected@.len() as int;
        match collected.pop() {
            Some(x) => {
                proof {
                    assert(x == total.take(cl)[cl - 1]);
                    assert(collected@ =~= total.take(cl).drop_last());
                    assert(total.take(cl).drop_last() =~= total.take(cl - 1));
                }
                r.push(x);
            }
            None => {
                break;
            }
        }
    }
    proof {
        assert(r@ =~= total.reverse());
    }
    r
}

/// Every post along the chain was indexed no later than the chain's head.
proof fn lemma_chain_head_latest(n: ThreadViewNode)
    requires
        wf_thread(n),
    ensures
        forall|k: int| 0 <= k < chain_posts(n).len() ==>
            lex_le(spec_post_ts(#[trigger] chain_posts(n)[k]), spec_post_ts(n.post)),
    decreases n,
{
    let c = chain_posts(n);
    assert(c[0] == n.post);
    lemma_lex_le_refl(spec_post_ts(n.post));
    match n.parent {
        ThreadParent::Post(p) => {
            lemma_chain_head_latest(*p);
            assert forall|k: int| 0 <= k < c.len() implies
                lex_le(spec_post_ts(#[trigger] c[k]), spec_post_ts(n.post)) by {
                if k > 0 {
                    assert(c[k] == chain_posts(*p)[k - 1]);
                    lemma_lex_le_trans(
                        spec_post_ts(chain_posts(*p)[k - 1]),
                        spec_post_ts(p.post),
                        spec_post_ts(n.post),
                    );
                }
            }
        }
        _ => {}
    }
}

/// Along the chain (newest first), timestamps are non-increasing.
proof fn lemma_chain_sorted(n: ThreadViewNode)
    requires
        wf_thread(n),
    ensures
        forall|i: int, j: int| 0 <= i <= j < chain_posts(n).len() ==>
            lex_le(
                spec_post_ts(#[trigger] chain_posts(n)[j]),
                spec_post_ts(#[trigger] chain_posts(n)[i]),
            ),
    decreases n,
{
    let c = chain_posts(n);
    lemma_chain_head_latest(n);
    match n.parent {
        ThreadParent::Post(p) => {
            lemma_chain_sorted(*p);
            assert forall|i: int, j: int| 0 <= i <= j < c.len() implies
                lex_le(spec_post_ts(#[trigger] c[j]), spec_post_ts(#[trigger] c[i])) by {
                if i > 0 {
                    assert(c[i] == chain_posts(*p)[i - 1]);
                    assert(c[j] == chain_posts(*p)[j - 1]);
                }
            }
        }
        _ => {
            assert(c.len() == 1);
        }
    }
}

/// Reconstruction is chronological: for any well-formed thread view, the
/// reconstructed conversation is non-decreasing in timestamp, oldest
/// first, however long the parent chain is.
pub proof fn lemma_reconstruction_chronological(n: ThreadViewNode)
    requires
        wf_thread(n),
    ensures
        forall|i: int, j: int|
            0 <= i <= j < chain_posts(n).reverse().len() ==>
            lex_le(
                spec_post_ts(#[trigger] chain_posts(n).reverse()[i]),
                spec_post_ts(#[trigger] chain_posts(n).reverse()[j]),
            ),
{
    let c = chain_posts(n);
    let r = c.reverse();
    lemma_chain_sorted(n);
    assert forall|i: int, j: int| 0 <= i <= j < r.len() implies
        lex_le(spec_post_ts(#[trigger] r[i]), spec_post_ts(#[trigger] r[j])) by {
        assert(r[i] == c[c.len() - 1 - i]);
        assert(r[j] == c[c.len() - 1 - j]);
    }
}

} // verus!
