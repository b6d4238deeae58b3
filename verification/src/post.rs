//! The post data model: a decoded social-network post together with its
//! optional embed payload, and the functions that render a post as message
//! text and as enriched input for embedding.

use vstd::prelude::*;

use crate::text::{push_str_chars, string_of};

verus! {

/// A decoded post: the essential fields of one post in a conversation
/// thread, free of the network client's own representation.
#[derive(Debug, Clone)]
pub struct PostData {
    /// Author name and handle, formatted as "Name (handle)", or the bare
    /// handle when no display name is set.
    pub author: String,
    /// The text of the post.
    pub text: String,
    /// The AT-URI identifying the post.
    pub uri: String,
    /// The author's decentralized identifier.
    pub author_did: String,
    /// Indexing timestamp as an ISO-8601 string.
    pub indexed_at: Option<String>,
    /// The embed payload, when the post carries one.
    pub embed: Option<PostEmbed>,
}

/// The embed payload of a post, one variant per recognized kind.
/// Unrecognized kinds are decoded as no embed at all.
#[derive(Debug, Clone)]
pub enum PostEmbed {
    Images(PostEmbedImages),
    External(PostEmbedExternal),
    Video(PostEmbedVideo),
    Record(PostEmbedRecord),
    RecordWithMedia(PostEmbedRecordWithMedia),
}

/// A set of attached images.
#[derive(Debug, Clone)]
pub struct PostEmbedImages {
    pub images: Vec<PostEmbedImage>,
}

/// One attached image.
#[derive(Debug, Clone)]
pub struct PostEmbedImage {
    /// Content reference of the image blob.
    pub image: String,
    /// Alt text, when the author provided one.
    pub alt: Option<String>,
}

/// An external link card.
#[derive(Debug, Clone)]
pub struct PostEmbedExternal {
    pub uri: String,
    pub title: Option<String>,
    pub description: Option<String>,
}

/// A quoted record.
#[derive(Debug, Clone)]
pub struct PostEmbedRecord {
    /// AT-URI of the quoted record.
    pub record: String,
    pub title: Option<String>,
}

/// A quoted record bundled with media.
#[derive(Debug, Clone)]
pub struct PostEmbedRecordWithMedia {
    pub record: PostEmbedRecord,
    pub media: Vec<PostEmbedMedia>,
}

/// The media half of a record-with-media embed.
#[derive(Debug, Clone)]
pub enum PostEmbedMedia {
    Images(PostEmbedImages),
    Video(PostEmbedVideo),
}

/// An attached video.
#[derive(Debug, Clone)]
pub struct PostEmbedVideo {
    /// Content reference of the video blob.
    pub video: String,
    /// Duration in seconds, when known.
    pub duration: Option<u64>,
}

/// Summary of one image: its alt text in quotes, or the word "image".
pub open spec fn spec_image_part(img: PostEmbedImage) -> Seq<char> {
    match img.alt {
        Some(alt) => "\""@ + alt@ + "\""@,
        None => "image"@,
    }
}

/// Comma-separated summaries of a list of images.
pub open spec fn spec_images_list(imgs: Seq<PostEmbedImage>) -> Seq<char>
    decreases imgs.len(),
{
    if imgs.len() == 0 {
        seq![]
    } else if imgs.len() == 1 {
        spec_image_part(imgs[0])
    } else {
        spec_images_list(imgs.drop_last()) + ", "@ + spec_image_part(imgs.last())
    }
}

/// The normalized textual summary of an embed payload: image alt text,
/// link title and description, a video marker, or the quoted record's URI.
pub open spec fn spec_embed_summary(e: PostEmbed) -> Seq<char> {
    match e {
        PostEmbed::Images(im) => "[Images: "@ + spec_images_list(im.images@) + "]"@,
        PostEmbed::External(x) =>
            "[External link: "@ + x.uri@ + "]"@
            + (match x.title {
                Some(t) => " - \""@ + t@ + "\""@,
                None => Seq::<char>::empty(),
            })
            + (match x.description {
                Some(d) => " - "@ + d@,
                None => Seq::<char>::empty(),
            }),
        PostEmbed::Video(_) => "[Video]"@,
        PostEmbed::Record(r) => "[Quoted post: "@ + r.record@ + "]"@,
        PostEmbed::RecordWithMedia(rm) => "[Quoted post with media: "@ + rm.record.record@ + "]"@,
    }
}

/// The plain rendering of a post used to converse with the model:
/// "author: text", with no embed annotations.
pub open spec fn spec_post_message(p: PostData) -> Seq<char> {
    p.author@ + ": "@ + p.text@
}

/// The text embedded for retrieval: the post text, enriched with the
/// embed summary when an embed is present.
pub open spec fn spec_embedding_text(p: PostData) -> Seq<char> {
    match p.embed {
        Some(e) => p.text@ + " "@ + spec_embed_summary(e),
        None => p.text@,
    }
}

fn push_image_part(out: &mut Vec<char>, img: &PostEmbedImage)
    ensures
        final(out)@ == old(out)@ + spec_image_part(*img),
{
    match &img.alt {
        Some(alt) => {
            push_str_chars(out, "\"");
            push_str_chars(out, alt.as_str());
            push_str_chars(out, "\"");
            assert(final(out)@ =~= old(out)@ + spec_image_part(*img));
        }
        None => {
            push_str_chars(out, "image");
        }
    }
}

fn push_images_list(out: &mut Vec<char>, imgs: &Vec<PostEmbedImage>)
    ensures
        final(out)@ == old(out)@ + spec_images_list(imgs@),
{
    let n = imgs.len();
    let mut i: usize = 0;
    while i < n
        invariant
            n == imgs@.len(),
            i <= n,
            out@ == old(out)@ + spec_images_list(imgs@.take(i as int)),
        decreases n - i,
    {
        if i > 0 {
            push_str_chars(out, ", ");
        }
        push_image_part(out, &imgs[i]);
        proof {
            let t = imgs@.take(i + 1);
            assert(t.drop_last() =~= imgs@.take(i as int));
            assert(t.last() == imgs@[i as int]);
            if i == 0 {
                assert(spec_images_list(t) == spec_image_part(imgs@[0]));
                assert(out@ =~= old(out)@ + spec_images_list(t));
            } else {
                assert(spec_images_list(t) ==
                    spec_images_list(imgs@.take(i as int)) + ", "@ + spec_image_part(imgs@[i as int]));
                assert(out@ =~= old(out)@ + spec_images_list(t));
            }
        }
        i = i + 1;
    }
    assert(imgs@.take(n as int) =~= imgs@);
}

/// Renders the normalized textual summary of an embed payload.
pub fn embed_summary(e: &PostEmbed) -> (r: String)
    ensures
        r@ == spec_embed_summary(*e),
{
    let mut out: Vec<char> = Vec::new();
    match e {
        PostEmbed::Images(im) => {
            push_str_chars(&mut out, "[Images: ");
            push_images_list(&mut out, &im.images);
            push_str_chars(&mut out, "]");
            assert(out@ =~= spec_embed_summary(*e));
        }
        PostEmbed::External(x) => {
            push_str_chars(&mut out, "[External link: ");
            push_str_chars(&mut out, x.uri.as_str());
            push_str_chars(&mut out, "]");
            match &x.title {
                Some(t) => {
                    push_str_chars(&mut out, " - \"");
                    push_str_chars(&mut out, t.as_str());
                    push_str_chars(&mut out, "\"");
                }
                None => {}
            }
            match &x.description {
                Some(d) => {
                    push_str_chars(&mut out, " - ");
                    push_str_chars(&mut out, d.as_str());
                }
                None => {}
            }
            assert(out@ =~= spec_embed_summary(*e));
        }
        PostEmbed::Video(_) => {
            push_str_chars(&mut out, "[Video]");
        }
        PostEmbed::Record(r) => {
            push_str_chars(&mut out, "[Quoted post: ");
            push_str_chars(&mut out, r.record.as_str());
            push_str_chars(&mut out, "]");
            assert(out@ =~= spec_embed_summary(*e));
        }
        PostEmbed::RecordWithMedia(rm) => {
            push_str_chars(&mut out, "[Quoted post with media: ");
            push_str_chars(&mut out, rm.record.record.as_str());
            push_str_chars(&mut out, "]");
            assert(out@ =~= spec_embed_summary(*e));
        }
    }
    string_of(out.as_slice())
}

/// The author field of a decoded post: the display name with the
/// handle in parentheses, or the bare handle when no display name is
/// set.
pub open spec fn spec_author(display_name: Option<Seq<char>>, handle: Seq<char>) -> Seq<char> {
    match display_name {
        Some(d) => d + " ("@ + handle + ")"@,
        None => handle,
    }
}

/// Formats a post's author field from its display name and handle.
pub fn format_author(display_name: &Option<String>, handle: &str) -> (r: String)
    ensures
        r@ == spec_author(
            match display_name {
                Some(d) => Some(d@),
                None => None,
            },
            handle@,
        ),
{
    match display_name {
        Some(d) => {
            let mut out: Vec<char> = Vec::new();
            push_str_chars(&mut out, d.as_str());
            push_str_chars(&mut out, " (");
            push_str_chars(&mut out, handle);
            push_str_chars(&mut out, ")");
            string_of(out.as_slice())
        }
        None => handle.to_owned(),
    }
}

/// Renders a post as the plain "author: text" line sent to the model.
pub fn assemble_post_message(p: &PostData) -> (r: String)
    ensures
        r@ == spec_post_message(*p),
{
    let mut out: Vec<char> = Vec::new();
    push_str_chars(&mut out, p.author.as_str());
    push_str_chars(&mut out, ": ");
    push_str_chars(&mut out, p.text.as_str());
    string_of(out.as_slice())
}

/// Produces the retrieval-embedding input for a post: its text, enriched
/// with the embed summary when an embed is present.
pub fn embedding_text(p: &PostData) -> (r: String)
    ensures
        r@ == spec_embedding_text(*p),
{
    match &p.embed {
        Some(e) => {
            let mut out: Vec<char> = Vec::new();
            push_str_chars(&mut out, p.text.as_str());
            push_str_chars(&mut out, " ");
            let summary = embed_summary(e);
            push_str_chars(&mut out, summary.as_str());
            assert(out@ =~= spec_embedding_text(*p));
            string_of(out.as_slice())
        }
        None => {
            let mut out: Vec<char> = Vec::new();
            push_str_chars(&mut out, p.text.as_str());
            string_of(out.as_slice())
        }
    }
}

} // verus!
