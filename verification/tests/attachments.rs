use senza::content::{
    attachment_repr, attachment_to_content_block, content_block_to_data_block, BinarySource,
    ContentBlock, DataBlock, ImageSource,
};
use senza::tool_result::dict_content_block;
use senza::value::PyValue;

fn text(s: &str) -> PyValue {
    PyValue::Str(s.to_string())
}

fn entries(pairs: Vec<(&str, PyValue)>) -> Vec<(String, PyValue)> {
    pairs.into_iter().map(|(k, v)| (k.to_string(), v)).collect()
}

fn block_from_dict(pairs: Vec<(&str, PyValue)>) -> Option<ContentBlock> {
    dict_content_block(&entries(pairs)).unwrap()
}

#[test]
fn dict_qevos_image_block() {
    let b = block_from_dict(vec![
        ("type", text("image")),
        ("media_type", text("image/jpeg")),
        ("data", text("AAAA")),
    ])
    .unwrap();
    match b {
        ContentBlock::Image { source: ImageSource::Base64 { media_type, data } } => {
            assert_eq!(media_type, "image/jpeg");
            assert_eq!(data, "AAAA");
        }
        _ => panic!("expected base64 image"),
    }
}

#[test]
fn dict_image_url_block() {
    for kind in ["image", "image_url"] {
        let b = block_from_dict(vec![("type", text(kind)), ("url", text("https://x/y.png"))]).unwrap();
        assert!(
            matches!(b, ContentBlock::Image { source: ImageSource::Url { .. } }),
            "shape: {kind}"
        );
    }
}

#[test]
fn dict_document_block_delegates() {
    let b = block_from_dict(vec![
        ("type", text("document_base64")),
        ("name", text("d.pdf")),
        ("media_type", text("application/pdf")),
        ("data", text("AAAA")),
    ])
    .unwrap();
    assert!(matches!(b, ContentBlock::Document { .. }));
}

#[test]
fn dict_unknown_type_returns_none() {
    let b = block_from_dict(vec![("type", text("audio")), ("data", text("x"))]);
    assert!(b.is_none());
}

#[test]
fn dict_image_missing_data_and_url_errors() {
    let e = entries(vec![("type", text("image"))]);
    assert!(dict_content_block(&e).is_err());
}

#[test]
fn image_url_block() {
    let b = attachment_to_content_block("image_url", "https://x/y.png", None, None).unwrap();
    assert!(matches!(b, ContentBlock::Image { .. }));
}

#[test]
fn image_base64_defaults_png() {
    let b = attachment_to_content_block("image_base64", "AAAA", None, None).unwrap();
    match b {
        ContentBlock::Image { source: ImageSource::Base64 { media_type, .. } } => {
            assert_eq!(media_type, "image/png")
        }
        _ => panic!("expected base64 image"),
    }
}

#[test]
fn document_requires_media_type() {
    assert!(attachment_to_content_block("document_url", "https://x/d.pdf", None, None).is_err());
}

#[test]
fn document_base64_ok() {
    let b = attachment_to_content_block(
        "document_base64",
        "AAAA",
        Some("d.pdf".into()),
        Some("application/pdf".into()),
    )
    .unwrap();
    assert!(matches!(b, ContentBlock::Document { .. }));
}

#[test]
fn unknown_kind_errors() {
    assert!(attachment_to_content_block("audio", "x", None, None).is_err());
}

#[test]
fn attachment_errors_carry_their_messages() {
    assert_eq!(
        attachment_to_content_block("document_url", "u", None, None).unwrap_err(),
        "document requires media_type"
    );
    assert_eq!(
        attachment_to_content_block("audio", "x", None, None).unwrap_err(),
        "unknown attachment kind: audio"
    );
}

#[test]
fn document_url_keeps_name_and_url() {
    let b = attachment_to_content_block(
        "document_url",
        "https://x/d.pdf",
        Some("d.pdf".into()),
        Some("application/pdf".into()),
    )
    .unwrap();
    assert_eq!(
        b,
        ContentBlock::Document {
            name: Some("d.pdf".into()),
            media_type: "application/pdf".into(),
            data: BinarySource::Url { url: "https://x/d.pdf".into() },
        }
    );
}

#[test]
fn dict_text_block_and_errors() {
    let b = block_from_dict(vec![("type", text("text")), ("text", text("hi"))]).unwrap();
    assert_eq!(b, ContentBlock::Text { text: "hi".into() });

    let missing_type = dict_content_block(&entries(vec![("text", text("hi"))])).unwrap_err();
    assert_eq!(missing_type.message, "content block missing 'type'");

    let missing_text = dict_content_block(&entries(vec![("type", text("text"))])).unwrap_err();
    assert_eq!(missing_text.message, "text content block missing 'text'");

    let bad_type = dict_content_block(&entries(vec![("type", PyValue::Int(3))])).unwrap_err();
    assert_eq!(bad_type.message, "'int' object is not an instance of 'str'");
}

#[test]
fn dict_image_without_media_type_defaults_png() {
    let b = block_from_dict(vec![("type", text("image")), ("data", text("QQ=="))]).unwrap();
    assert_eq!(
        b,
        ContentBlock::Image {
            source: ImageSource::Base64 { media_type: "image/png".into(), data: "QQ==".into() }
        }
    );
}

#[test]
fn dict_image_none_url_falls_back_to_data() {
    let b = block_from_dict(vec![
        ("type", text("image")),
        ("url", PyValue::NoneValue),
        ("data", text("QQ==")),
    ])
    .unwrap();
    assert!(matches!(b, ContentBlock::Image { source: ImageSource::Base64 { .. } }));
}

#[test]
fn dict_attachment_kind_needs_data_or_url() {
    let err = dict_content_block(&entries(vec![("type", text("image_base64"))])).unwrap_err();
    assert_eq!(err.message, "attachment content block missing 'data'/'url'");
    let err = dict_content_block(&entries(vec![("type", text("document_url")), ("url", text("u"))]))
        .unwrap_err();
    assert_eq!(err.message, "document requires media_type");
}

#[test]
fn content_blocks_become_data_blocks_with_same_content() {
    let img = ContentBlock::Image { source: ImageSource::Url { url: "u".into() } };
    assert_eq!(
        content_block_to_data_block(&img),
        DataBlock::Image { source: ImageSource::Url { url: "u".into() } }
    );
    let t = ContentBlock::Text { text: "x".into() };
    assert_eq!(
        content_block_to_data_block(&t),
        DataBlock::Text { text: "x".into(), mime_type: None }
    );
}

#[test]
fn attachment_repr_forms() {
    let url = attachment_to_content_block("image_url", "https://x/y.png", None, None).unwrap();
    assert_eq!(attachment_repr(&url), "Attachment(image_url=https://x/y.png)");
    let b64 = attachment_to_content_block("image_base64", "AAAA", None, None).unwrap();
    assert_eq!(attachment_repr(&b64), "Attachment(image_base64, image/png)");
    let doc = attachment_to_content_block("document_base64", "AAAA", None, Some("application/pdf".into()))
        .unwrap();
    assert_eq!(attachment_repr(&doc), "Attachment(document, <unnamed>)");
    let named = attachment_to_content_block(
        "document_base64",
        "AAAA",
        Some("d.pdf".into()),
        Some("application/pdf".into()),
    )
    .unwrap();
    assert_eq!(attachment_repr(&named), "Attachment(document, d.pdf)");
    assert_eq!(attachment_repr(&ContentBlock::Text { text: "t".into() }), "Attachment(?)");
}

#[test]
fn dict_document_type_block() {
    let b = block_from_dict(vec![
        ("type", text("document")),
        ("name", text("d.pdf")),
        ("media_type", text("application/pdf")),
        ("data", text("AAAA")),
    ])
    .unwrap();
    assert_eq!(
        b,
        ContentBlock::Document {
            name: Some("d.pdf".into()),
            media_type: "application/pdf".into(),
            data: BinarySource::Base64 { data: "AAAA".into() },
        }
    );
    let b = block_from_dict(vec![
        ("type", text("document")),
        ("media_type", text("application/pdf")),
        ("url", text("https://x/d.pdf")),
    ])
    .unwrap();
    assert_eq!(
        b,
        ContentBlock::Document {
            name: None,
            media_type: "application/pdf".into(),
            data: BinarySource::Url { url: "https://x/d.pdf".into() },
        }
    );
    let err = dict_content_block(&entries(vec![("type", text("document")), ("data", text("AAAA"))]))
        .unwrap_err();
    assert_eq!(err.message, "document requires media_type");
    let err = dict_content_block(&entries(vec![("type", text("document"))])).unwrap_err();
    assert_eq!(err.message, "attachment content block missing 'data'/'url'");
}
