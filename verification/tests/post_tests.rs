use aigis::context::embedding_texts;
use aigis::post::{
    assemble_post_message, embed_summary, embedding_text, format_author, PostData, PostEmbed,
    PostEmbedExternal, PostEmbedImage, PostEmbedImages, PostEmbedRecord, PostEmbedRecordWithMedia,
    PostEmbedVideo,
};

fn post(embed: Option<PostEmbed>) -> PostData {
    PostData {
        author: "Alice (alice.test)".to_string(),
        text: "look at this".to_string(),
        uri: "at://u".to_string(),
        author_did: "did:plc:a".to_string(),
        indexed_at: None,
        embed,
    }
}

#[test]
fn author_formatting_uses_display_name_when_set() {
    assert_eq!(
        format_author(&Some("Alice".to_string()), "alice.test"),
        "Alice (alice.test)"
    );
    assert_eq!(format_author(&None, "alice.test"), "alice.test");
}

#[test]
fn message_rendering_is_author_colon_text() {
    assert_eq!(assemble_post_message(&post(None)), "Alice (alice.test): look at this");
}

#[test]
fn image_summaries_quote_alt_text() {
    let e = PostEmbed::Images(PostEmbedImages {
        images: vec![
            PostEmbedImage { image: "b1".to_string(), alt: Some("a cat".to_string()) },
            PostEmbedImage { image: "b2".to_string(), alt: None },
        ],
    });
    assert_eq!(embed_summary(&e), "[Images: \"a cat\", image]");
}

#[test]
fn external_summary_carries_title_and_description() {
    let e = PostEmbed::External(PostEmbedExternal {
        uri: "https://example.com".to_string(),
        title: Some("Example".to_string()),
        description: Some("an example page".to_string()),
    });
    assert_eq!(
        embed_summary(&e),
        "[External link: https://example.com] - \"Example\" - an example page"
    );
}

#[test]
fn video_and_quote_summaries() {
    let v = PostEmbed::Video(PostEmbedVideo { video: "b".to_string(), duration: None });
    assert_eq!(embed_summary(&v), "[Video]");
    let q = PostEmbed::Record(PostEmbedRecord { record: "at://q".to_string(), title: None });
    assert_eq!(embed_summary(&q), "[Quoted post: at://q]");
    let qm = PostEmbed::RecordWithMedia(PostEmbedRecordWithMedia {
        record: PostEmbedRecord { record: "at://q2".to_string(), title: None },
        media: Vec::new(),
    });
    assert_eq!(embed_summary(&qm), "[Quoted post with media: at://q2]");
}

#[test]
fn embedding_input_is_enriched_but_message_is_not() {
    let p = post(Some(PostEmbed::External(PostEmbedExternal {
        uri: "https://example.com".to_string(),
        title: Some("Example".to_string()),
        description: None,
    })));
    assert_eq!(
        embedding_text(&p),
        "look at this [External link: https://example.com] - \"Example\""
    );
    assert_eq!(assemble_post_message(&p), "Alice (alice.test): look at this");
    // a post without an embed embeds its bare text
    assert_eq!(embedding_text(&post(None)), "look at this");
    let texts = embedding_texts(&vec![post(None), p]);
    assert_eq!(texts.len(), 2);
    assert_eq!(texts[0], "look at this");
}
