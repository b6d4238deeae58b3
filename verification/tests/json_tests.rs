use aigis::json::{chat_log_json, post_data_to_json_string, post_to_json_string};
use aigis::post::{
    PostData, PostEmbed, PostEmbedExternal, PostEmbedImage, PostEmbedImages, PostEmbedMedia,
    PostEmbedRecord, PostEmbedRecordWithMedia, PostEmbedVideo,
};

fn base_post() -> PostData {
    PostData {
        author: "Alice (alice.test)".to_string(),
        text: "plain".to_string(),
        uri: "at://u".to_string(),
        author_did: "did:plc:a".to_string(),
        indexed_at: None,
        embed: None,
    }
}

#[test]
fn plain_post_serializes_exactly() {
    let p = base_post();
    assert_eq!(
        post_to_json_string(&p),
        "{\"author\":\"Alice (alice.test)\",\"text\":\"plain\",\"uri\":\"at://u\",\"author_did\":\"did:plc:a\",\"indexed_at\":null,\"embed\":null}"
    );
}

#[test]
fn string_escaping_matches_json_rules() {
    let mut p = base_post();
    p.text = "say \"hi\"\\\nnew\tline\u{1}".to_string();
    let out = post_to_json_string(&p);
    assert!(out.contains("\"text\":\"say \\\"hi\\\"\\\\\\nnew\\tline\\u0001\""));
    // the emitted text must itself parse as JSON
    let v: serde_json::Value = serde_json::from_str(&out).unwrap();
    assert_eq!(v["text"].as_str().unwrap(), "say \"hi\"\\\nnew\tline\u{1}");
}

#[test]
fn embeds_serialize_with_their_variant_tags() {
    let mut p = base_post();
    p.indexed_at = Some("2024-05-01T10:00:00Z".to_string());
    p.embed = Some(PostEmbed::External(PostEmbedExternal {
        uri: "https://example.com".to_string(),
        title: Some("Example".to_string()),
        description: None,
    }));
    let out = post_to_json_string(&p);
    assert!(out.contains("\"indexed_at\":\"2024-05-01T10:00:00Z\""));
    assert!(out.contains(
        "\"embed\":{\"External\":{\"uri\":\"https://example.com\",\"title\":\"Example\",\"description\":null}}"
    ));
    let v: serde_json::Value = serde_json::from_str(&out).unwrap();
    assert_eq!(v["embed"]["External"]["uri"].as_str().unwrap(), "https://example.com");
}

#[test]
fn record_with_media_serializes_nested() {
    let mut p = base_post();
    p.embed = Some(PostEmbed::RecordWithMedia(PostEmbedRecordWithMedia {
        record: PostEmbedRecord { record: "at://q".to_string(), title: None },
        media: vec![
            PostEmbedMedia::Images(PostEmbedImages {
                images: vec![PostEmbedImage { image: "b1".to_string(), alt: Some("cat".to_string()) }],
            }),
            PostEmbedMedia::Video(PostEmbedVideo { video: "b2".to_string(), duration: Some(90) }),
        ],
    }));
    let out = post_to_json_string(&p);
    assert!(out.contains("\"RecordWithMedia\":{\"record\":{\"record\":\"at://q\",\"title\":null}"));
    assert!(out.contains("{\"Images\":{\"images\":[{\"image\":\"b1\",\"alt\":\"cat\"}]}}"));
    assert!(out.contains("{\"Video\":{\"video\":\"b2\",\"duration\":90}}"));
    assert!(serde_json::from_str::<serde_json::Value>(&out).is_ok());
}

#[test]
fn post_list_is_a_json_array() {
    let out = post_data_to_json_string(&vec![base_post(), base_post()]);
    assert!(out.starts_with("[{"));
    assert!(out.ends_with("}]"));
    let v: serde_json::Value = serde_json::from_str(&out).unwrap();
    assert_eq!(v.as_array().unwrap().len(), 2);
    assert_eq!(post_data_to_json_string(&Vec::new()), "[]");
}

#[test]
fn chat_log_is_the_canonical_exchange_record() {
    let out = chat_log_json("who: asks", "answers", "did:plc:who");
    assert_eq!(
        out,
        "{\"post\":\"who: asks\",\"response\":\"answers\",\"poster_did\":\"did:plc:who\"}"
    );
    let v: serde_json::Value = serde_json::from_str(&out).unwrap();
    assert_eq!(v["poster_did"].as_str().unwrap(), "did:plc:who");
}
