//! A small verified JSON emitter: string escaping and the serialized
//! forms this crate persists or exchanges — decoded posts and the
//! canonical record of a finished exchange.

use vstd::prelude::*;

use crate::post::{
    PostData, PostEmbed, PostEmbedImage, PostEmbedImages, PostEmbedMedia, PostEmbedRecord,
    PostEmbedVideo,
};
use crate::text::{chars_of, dec_digits, push_dec_u64, push_str_chars, string_of};

verus! {

pub const HEX_LOWER: [char; 16] = [
    '0', '1', '2', '3', '4', '5', '6', '7', '8', '9', 'a', 'b', 'c', 'd', 'e', 'f',
];

/// The escape sequence a character is written as inside a JSON string:
/// quote and backslash get a backslash escape, control characters get
/// their short escape or a \u00XX escape, and every other character
/// stands for itself.
pub open spec fn spec_escape_char(c: char) -> Seq<char> {
    if c == '"' {
        seq!['\\', '"']
    } else if c == '\\' {
        seq!['\\', '\\']
    } else if c == '\u{8}' {
        seq!['\\', 'b']
    } else if c == '\t' {
        seq!['\\', 't']
    } else if c == '\n' {
        seq!['\\', 'n']
    } else if c == '\u{c}' {
        seq!['\\', 'f']
    } else if c == '\r' {
        seq!['\\', 'r']
    } else if (c as u32) < 0x20 {
        seq!['\\', 'u', '0', '0', HEX_LOWER@[((c as u32) / 16) as int], HEX_LOWER@[((c as u32) % 16) as int]]
    } else {
        seq![c]
    }
}

/// The body of a JSON string: every character escaped.
pub open spec fn spec_escape(s: Seq<char>) -> Seq<char>
    decreases s.len(),
{
    if s.len() == 0 {
        Seq::<char>::empty()
    } else {
        spec_escape(s.drop_last()) + spec_escape_char(s.last())
    }
}

/// A JSON string literal: the escaped body in double quotes.
pub open spec fn spec_json_string(s: Seq<char>) -> Seq<char> {
    seq!['"'] + spec_escape(s) + seq!['"']
}

/// A JSON string literal or `null` for an absent value.
pub open spec fn spec_json_opt_string(o: Option<String>) -> Seq<char> {
    match o {
        Some(s) => spec_json_string(s@),
        None => "null"@,
    }
}

fn push_escaped_char(out: &mut Vec<char>, c: char)
    ensures
        final(out)@ == old(out)@ + spec_escape_char(c),
{
    if c == '"' {
        out.push('\\');
        out.push('"');
    } else if c == '\\' {
        out.push('\\');
        out.push('\\');
    } else if c == '\u{8}' {
        out.push('\\');
        out.push('b');
    } else if c == '\t' {
        out.push('\\');
        out.push('t');
    } else if c == '\n' {
        out.push('\\');
        out.push('n');
    } else if c == '\u{c}' {
        out.push('\\');
        out.push('f');
    } else if c == '\r' {
        out.push('\\');
        out.push('r');
    } else if (c as u32) < 0x20 {
        out.push('\\');
        out.push('u');
        out.push('0');
        out.push('0');
        let code = c as u32;
        out.push(HEX_LOWER[(code / 16) as usize]);
        out.push(HEX_LOWER[(code % 16) as usize]);
        assert(out@ =~= old(out)@ + spec_escape_char(c));
    } else {
        out.push(c);
    }
    assert(out@ =~= old(out)@ + spec_escape_char(c));
}

/// Appends the JSON string literal for `s` to `out`.
pub fn push_json_string(out: &mut Vec<char>, s: &str)
    ensures
        final(out)@ == old(out)@ + spec_json_string(s@),
{
    out.push('"');
    let sc = chars_of(s);
    let n = sc.len();
    let mut i: usize = 0;
    while i < n
        invariant
            n == sc@.len(),
            sc@ == s@,
            i <= n,
            out@ == old(out)@ + seq!['"'] + spec_escape(s@.take(i as int)),
        decreases n - i,
    {
        push_escaped_char(out, sc[i]);
        proof {
            let t = s@.take(i + 1);
            assert(t.drop_last() =~= s@.take(i as int));
            assert(t.last() == s@[i as int]);
        }
        i = i + 1;
    }
    out.push('"');
    proof {
        assert(s@.take(n as int) =~= s@);
        assert(out@ =~= old(out)@ + spec_json_string(s@));
    }
}

fn push_json_opt_string(out: &mut Vec<char>, o: &Option<String>)
    ensures
        final(out)@ == old(out)@ + spec_json_opt_string(*o),
{
    match o {
        Some(s) => push_json_string(out, s.as_str()),
        None => push_str_chars(out, "null"),
    }
}

/// The serialized form of one attached image.
pub open spec fn spec_image_json(img: PostEmbedImage) -> Seq<char> {
    "{\"image\":"@ + spec_json_string(img.image@) + ",\"alt\":"@ + spec_json_opt_string(img.alt)
        + "}"@
}

/// The elements of a JSON array of images, comma-separated.
pub open spec fn spec_images_elems(imgs: Seq<PostEmbedImage>) -> Seq<char>
    decreases imgs.len(),
{
    if imgs.len() == 0 {
        Seq::<char>::empty()
    } else if imgs.len() == 1 {
        spec_image_json(imgs[0])
    } else {
        spec_images_elems(imgs.drop_last()) + ","@ + spec_image_json(imgs.last())
    }
}

/// The serialized form of an images embed payload.
pub open spec fn spec_images_json(im: PostEmbedImages) -> Seq<char> {
    "{\"images\":["@ + spec_images_elems(im.images@) + "]}"@
}

/// The serialized form of a video embed payload.
pub open spec fn spec_video_json(v: PostEmbedVideo) -> Seq<char> {
    "{\"video\":"@ + spec_json_string(v.video@) + ",\"duration\":"@
        + (match v.duration {
            Some(d) => dec_digits(d as nat),
            None => "null"@,
        }) + "}"@
}

/// The serialized form of a quoted-record embed payload.
pub open spec fn spec_record_json(r: PostEmbedRecord) -> Seq<char> {
    "{\"record\":"@ + spec_json_string(r.record@) + ",\"title\":"@ + spec_json_opt_string(r.title)
        + "}"@
}

/// The serialized form of one media element of a record-with-media embed,
/// tagged by its kind.
pub open spec fn spec_media_json(m: PostEmbedMedia) -> Seq<char> {
    match m {
        PostEmbedMedia::Images(im) => "{\"Images\":"@ + spec_images_json(im) + "}"@,
        PostEmbedMedia::Video(v) => "{\"Video\":"@ + spec_video_json(v) + "}"@,
    }
}

/// The elements of a JSON array of media, comma-separated.
pub open spec fn spec_media_elems(ms: Seq<PostEmbedMedia>) -> Seq<char>
    decreases ms.len(),
{
    if ms.len() == 0 {
        Seq::<char>::empty()
    } else if ms.len() == 1 {
        spec_media_json(ms[0])
    } else {
        spec_media_elems(ms.drop_last()) + ","@ + spec_media_json(ms.last())
    }
}

/// The serialized form of an embed payload, tagged by its variant.
pub open spec fn spec_embed_json(e: PostEmbed) -> Seq<char> {
    match e {
        PostEmbed::Images(im) => "{\"Images\":"@ + spec_images_json(im) + "}"@,
        PostEmbed::External(x) =>
            "{\"External\":{\"uri\":"@ + spec_json_string(x.uri@) + ",\"title\":"@
                + spec_json_opt_string(x.title) + ",\"description\":"@
                + spec_json_opt_string(x.description) + "}}"@,
        PostEmbed::Video(v) => "{\"Video\":"@ + spec_video_json(v) + "}"@,
        PostEmbed::Record(r) => "{\"Record\":"@ + spec_record_json(r) + "}"@,
        PostEmbed::RecordWithMedia(rm) =>
            "{\"RecordWithMedia\":{\"record\":"@ + spec_record_json(rm.record) + ",\"media\":["@
                + spec_media_elems(rm.media@) + "]}}"@,
    }
}

/// The serialized form of a decoded post.
pub open spec fn spec_post_json(p: PostData) -> Seq<char> {
    "{\"author\":"@ + spec_json_string(p.author@) + ",\"text\":"@ + spec_json_string(p.text@)
        + ",\"uri\":"@ + spec_json_string(p.uri@) + ",\"author_did\":"@
        + spec_json_string(p.author_did@) + ",\"indexed_at\":"@ + spec_json_opt_string(p.indexed_at)
        + ",\"embed\":"@
        + (match p.embed {
            Some(e) => spec_embed_json(e),
            None => "null"@,
        }) + "}"@
}

/// The elements of a JSON array of posts, comma-separated.
pub open spec fn spec_posts_elems(ps: Seq<PostData>) -> Seq<char>
    decreases ps.len(),
{
    if ps.len() == 0 {
        Seq::<char>::empty()
    } else if ps.len() == 1 {
        spec_post_json(ps[0])
    } else {
        spec_posts_elems(ps.drop_last()) + ","@ + spec_post_json(ps.last())
    }
}

/// The serialized form of a list of decoded posts: a JSON array.
pub open spec fn spec_posts_json(ps: Seq<PostData>) -> Seq<char> {
    "["@ + spec_posts_elems(ps) + "]"@
}

/// The canonical record of a finished exchange: the triggering message,
/// the final reply, and the author's identifier.
pub open spec fn spec_chat_log_json(post: Seq<char>, response: Seq<char>, poster_did: Seq<char>) -> Seq<char> {
    "{\"post\":"@ + spec_json_string(post) + ",\"response\":"@ + spec_json_string(response)
        + ",\"poster_did\":"@ + spec_json_string(poster_did) + "}"@
}

fn push_image_json(out: &mut Vec<char>, img: &PostEmbedImage)
    ensures
        final(out)@ == old(out)@ + spec_image_json(*img),
{
    push_str_chars(out, "{\"image\":");
    push_json_string(out, img.image.as_str());
    push_str_chars(out, ",\"alt\":");
    push_json_opt_string(out, &img.alt);
    push_str_chars(out, "}");
    assert(out@ =~= old(out)@ + spec_image_json(*img));
}

fn push_images_json(out: &mut Vec<char>, im: &PostEmbedImages)
    ensures
        final(out)@ == old(out)@ + spec_images_json(*im),
{
    push_str_chars(out, "{\"images\":[");
    let n = im.images.len();
    let mut i: usize = 0;
    while i < n
        invariant
            n == im.images@.len(),
            i <= n,
            out@ == old(out)@ + "{\"images\":["@ + spec_images_elems(im.images@.take(i as int)),
        decreases n - i,
    {
        if i > 0 {
            push_str_chars(out, ",");
        }
        push_image_json(out, &im.images[i]);
        proof {
            let t = im.images@.take(i + 1);
            assert(t.drop_last() =~= im.images@.take(i as int));
            assert(t.last() == im.images@[i as int]);
            assert(out@ =~= old(out)@ + "{\"images\":["@ + spec_images_elems(t));
        }
        i = i + 1;
    }
    push_str_chars(out, "]}");
    proof {
        assert(im.images@.take(n as int) =~= im.images@);
        assert(out@ =~= old(out)@ + spec_images_json(*im));
    }
}

fn push_video_json(out: &mut Vec<char>, v: &PostEmbedVideo)
    ensures
        final(out)@ == old(out)@ + spec_video_json(*v),
{
    push_str_chars(out, "{\"video\":");
    push_json_string(out, v.video.as_str());
    push_str_chars(out, ",\"duration\":");
    match v.duration {
        Some(d) => {
            let mut digits: Vec<char> = Vec::new();
            push_dec_u64(d, &mut digits);
            crate::text::push_all(out, digits.as_slice());
        }
        None => {
            push_str_chars(out, "null");
        }
    }
    push_str_chars(out, "}");
    assert(out@ =~= old(out)@ + spec_video_json(*v));
}

fn push_record_json(out: &mut Vec<char>, r: &PostEmbedRecord)
    ensures
        final(out)@ == old(out)@ + spec_record_json(*r),
{
    push_str_chars(out, "{\"record\":");
    push_json_string(out, r.record.as_str());
    push_str_chars(out, ",\"title\":");
    push_json_opt_string(out, &r.title);
    push_str_chars(out, "}");
    assert(out@ =~= old(out)@ + spec_record_json(*r));
}

fn push_media_json(out: &mut Vec<char>, m: &PostEmbedMedia)
    ensures
        final(out)@ == old(out)@ + spec_media_json(*m),
{
    match m {
        PostEmbedMedia::Images(im) => {
            push_str_chars(out, "{\"Images\":");
            push_images_json(out, im);
            push_str_chars(out, "}");
            assert(out@ =~= old(out)@ + spec_media_json(*m));
        }
        PostEmbedMedia::Video(v) => {
            push_str_chars(out, "{\"Video\":");
            push_video_json(out, v);
            push_str_chars(out, "}");
            assert(out@ =~= old(out)@ + spec_media_json(*m));
        }
    }
}

fn push_embed_json(out: &mut Vec<char>, e: &PostEmbed)
    ensures
        final(out)@ == old(out)@ + spec_embed_json(*e),
{
    match e {
        PostEmbed::Images(im) => {
            push_str_chars(out, "{\"Images\":");
            push_images_json(out, im);
            push_str_chars(out, "}");
            assert(out@ =~= old(out)@ + spec_embed_json(*e));
        }
        PostEmbed::External(x) => {
            push_str_chars(out, "{\"External\":{\"uri\":");
            push_json_string(out, x.uri.as_str());
            push_str_chars(out, ",\"title\":");
            push_json_opt_string(out, &x.title);
            push_str_chars(out, ",\"description\":");
            push_json_opt_string(out, &x.description);
            push_str_chars(out, "}}");
            assert(out@ =~= old(out)@ + spec_embed_json(*e));
        }
        PostEmbed::Video(v) => {
            push_str_chars(out, "{\"Video\":");
            push_video_json(out, v);
            push_str_chars(out, "}");
            assert(out@ =~= old(out)@ + spec_embed_json(*e));
        }
        PostEmbed::Record(r) => {
            push_str_chars(out, "{\"Record\":");
            push_record_json(out, r);
            push_str_chars(out, "}");
            assert(out@ =~= old(out)@ + spec_embed_json(*e));
        }
        PostEmbed::RecordWithMedia(rm) => {
            push_str_chars(out, "{\"RecordWithMedia\":{\"record\":");
            push_record_json(out, &rm.record);
            push_str_chars(out, ",\"media\":[");
            let ghost mid = out@;
            let n = rm.media.len();
            let mut i: usize = 0;
            while i < n
                invariant
                    n == rm.media@.len(),
                    i <= n,
                    out@ == mid + spec_media_elems(rm.media@.take(i as int)),
                decreases n - i,
            {
                if i > 0 {
                    push_str_chars(out, ",");
                }
                push_media_json(out, &rm.media[i]);
                proof {
                    let t = rm.media@.take(i + 1);
                    assert(t.drop_last() =~= rm.media@.take(i as int));
                    assert(t.last() == rm.media@[i as int]);
                    assert(out@ =~= mid + spec_media_elems(t));
                }
                i = i + 1;
            }
            push_str_chars(out, "]}}");
            proof {
                assert(rm.media@.take(n as int) =~= rm.media@);
                assert(out@ =~= old(out)@ + spec_embed_json(*e));
            }
        }
    }
}

/// Appends the serialized form of one decoded post to `out`.
fn push_post_json(out: &mut Vec<char>, p: &PostData)
    ensures
        final(out)@ == old(out)@ + spec_post_json(*p),
{
    push_str_chars(out, "{\"author\":");
    push_json_string(out, p.author.as_str());
    push_str_chars(out, ",\"text\":");
    push_json_string(out, p.text.as_str());
    push_str_chars(out, ",\"uri\":");
    push_json_string(out, p.uri.as_str());
    push_str_chars(out, ",\"author_did\":");
    push_json_string(out, p.author_did.as_str());
    push_str_chars(out, ",\"indexed_at\":");
    push_json_opt_string(out, &p.indexed_at);
    push_str_chars(out, ",\"embed\":");
    match &p.embed {
        Some(e) => push_embed_json(out, e),
        None => push_str_chars(out, "null"),
    }
    push_str_chars(out, "}");
    assert(out@ =~= old(out)@ + spec_post_json(*p));
}

/// Serializes one decoded post to its JSON text.
pub fn post_to_json_string(p: &PostData) -> (r: String)
    ensures
        r@ == spec_post_json(*p),
{
    let mut out: Vec<char> = Vec::new();
    push_post_json(&mut out, p);
    string_of(out.as_slice())
}

/// Serializes a list of decoded posts to the JSON array text.
pub fn post_data_to_json_string(posts: &Vec<PostData>) -> (r: String)
    ensures
        r@ == spec_posts_json(posts@),
{
    let mut out: Vec<char> = Vec::new();
    push_str_chars(&mut out, "[");
    let n = posts.len();
    let mut i: usize = 0;
    while i < n
        invariant
            n == posts@.len(),
            i <= n,
            out@ == "["@ + spec_posts_elems(posts@.take(i as int)),
        decreases n - i,
    {
        if i > 0 {
            push_str_chars(&mut out, ",");
        }
        push_post_json(&mut out, &posts[i]);
        proof {
            let t = posts@.take(i + 1);
            assert(t.drop_last() =~= posts@.take(i as int));
            assert(t.last() == posts@[i as int]);
            assert(out@ =~= "["@ + spec_posts_elems(t));
        }
        i = i + 1;
    }
    push_str_chars(&mut out, "]");
    proof {
        assert(posts@.take(n as int) =~= posts@);
        assert(out@ =~= spec_posts_json(posts@));
    }
    string_of(out.as_slice())
}

/// Serializes the canonical record of a finished exchange.
pub fn chat_log_json(post: &str, response: &str, poster_did: &str) -> (r: String)
    ensures
        r@ == spec_chat_log_json(post@, response@, poster_did@),
{
    let mut out: Vec<char> = Vec::new();
    push_str_chars(&mut out, "{\"post\":");
    push_json_string(&mut out, post);
    push_str_chars(&mut out, ",\"response\":");
    push_json_string(&mut out, response);
    push_str_chars(&mut out, ",\"poster_did\":");
    push_json_string(&mut out, poster_did);
    push_str_chars(&mut out, "}");
    assert(out@ =~= spec_chat_log_json(post@, response@, poster_did@));
    string_of(out.as_slice())
}

} // verus!
