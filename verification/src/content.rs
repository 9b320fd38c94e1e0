//! Multimodal content blocks: attachments built from constructor arguments,
//! content blocks read from Python dicts, and their tool-result form.

use vstd::prelude::*;

use crate::text::{concat2, concat3, str_eq, string_from};

verus! {

/// Where an image's bytes come from.
#[derive(Debug, Clone, PartialEq, Eq)]
pub enum ImageSource {
    Url { url: String },
    Base64 { media_type: String, data: String },
}

/// Where a document's bytes come from.
#[derive(Debug, Clone, PartialEq, Eq)]
pub enum BinarySource {
    Url { url: String },
    Base64 { data: String },
}

/// A content block of a user message: text, an image or a document.
#[derive(Debug, Clone, PartialEq, Eq)]
pub enum ContentBlock {
    Text { text: String },
    Image { source: ImageSource },
    Document { name: Option<String>, media_type: String, data: BinarySource },
}

/// A content block of a tool result.
#[derive(Debug, Clone, PartialEq, Eq)]
pub enum DataBlock {
    Text { text: String, mime_type: Option<String> },
    Image { source: ImageSource },
    Document { name: Option<String>, media_type: String, data: BinarySource },
}

/// The mathematical form of an [`ImageSource`].
pub enum ImageSourceView {
    Url(Seq<char>),
    Base64 { media_type: Seq<char>, data: Seq<char> },
}

/// The mathematical form of a [`BinarySource`].
pub enum BinarySourceView {
    Url(Seq<char>),
    Base64(Seq<char>),
}

/// The mathematical form of a [`ContentBlock`].
pub enum ContentBlockView {
    Text(Seq<char>),
    Image(ImageSourceView),
    Document { name: Option<Seq<char>>, media_type: Seq<char>, data: BinarySourceView },
}

/// The mathematical form of a [`DataBlock`].
pub enum DataBlockView {
    Text { text: Seq<char>, mime_type: Option<Seq<char>> },
    Image(ImageSourceView),
    Document { name: Option<Seq<char>>, media_type: Seq<char>, data: BinarySourceView },
}

/// The characters of an optional string.
pub open spec fn opt_view(o: Option<String>) -> Option<Seq<char>> {
    match o {
        Some(s) => Some(s@),
        None => None,
    }
}

impl View for ImageSource {
    type V = ImageSourceView;

    open spec fn view(&self) -> ImageSourceView {
        match self {
            ImageSource::Url { url } => ImageSourceView::Url(url@),
            ImageSource::Base64 { media_type, data } => ImageSourceView::Base64 {
                media_type: media_type@,
                data: data@,
            },
        }
    }
}

impl View for BinarySource {
    type V = BinarySourceView;

    open spec fn view(&self) -> BinarySourceView {
        match self {
            BinarySource::Url { url } => BinarySourceView::Url(url@),
            BinarySource::Base64 { data } => BinarySourceView::Base64(data@),
        }
    }
}

impl View for ContentBlock {
    type V = ContentBlockView;

    open spec fn view(&self) -> ContentBlockView {
        match self {
            ContentBlock::Text { text } => ContentBlockView::Text(text@),
            ContentBlock::Image { source } => ContentBlockView::Image(source@),
            ContentBlock::Document { name, media_type, data } => ContentBlockView::Document {
                name: opt_view(*name),
                media_type: media_type@,
                data: data@,
            },
        }
    }
}

impl View for DataBlock {
    type V = DataBlockView;

    open spec fn view(&self) -> DataBlockView {
        match self {
            DataBlock::Text { text, mime_type } => DataBlockView::Text {
                text: text@,
                mime_type: opt_view(*mime_type),
            },
            DataBlock::Image { source } => DataBlockView::Image(source@),
            DataBlock::Document { name, media_type, data } => DataBlockView::Document {
                name: opt_view(*name),
                media_type: media_type@,
                data: data@,
            },
        }
    }
}

/// The media type an inline image gets when none is given.
pub open spec fn default_image_media_type() -> Seq<char> {
    "image/png"@
}

/// The block an attachment constructor builds from its arguments, or the
/// message of the error it raises.
pub open spec fn spec_attachment_block(
    kind: Seq<char>,
    data: Seq<char>,
    name: Option<Seq<char>>,
    media_type: Option<Seq<char>>,
) -> Result<ContentBlockView, Seq<char>> {
    if kind == "image_url"@ {
        Ok(ContentBlockView::Image(ImageSourceView::Url(data)))
    } else if kind == "image_base64"@ {
        Ok(
            ContentBlockView::Image(
                ImageSourceView::Base64 {
                    media_type: match media_type {
                        Some(m) => m,
                        None => default_image_media_type(),
                    },
                    data,
                },
            ),
        )
    } else if kind == "document_url"@ || kind == "document_base64"@ {
        match media_type {
            Some(m) => Ok(
                ContentBlockView::Document {
                    name,
                    media_type: m,
                    data: if kind == "document_url"@ {
                        BinarySourceView::Url(data)
                    } else {
                        BinarySourceView::Base64(data)
                    },
                },
            ),
            None => Err("document requires media_type"@),
        }
    } else {
        Err("unknown attachment kind: "@ + kind)
    }
}

/// The mathematical form of a block-or-message result.
pub open spec fn block_result_view(r: Result<ContentBlock, String>) -> Result<
    ContentBlockView,
    Seq<char>,
> {
    match r {
        Ok(b) => Ok(b@),
        Err(m) => Err(m@),
    }
}

/// Builds the content block of an attachment constructor (`image_url`,
/// `image_base64`, `document_url`, `document_base64`).
pub fn attachment_to_content_block(
    kind: &str,
    data: &str,
    name: Option<String>,
    media_type: Option<String>,
) -> (r: Result<ContentBlock, String>)
    ensures
        block_result_view(r) == spec_attachment_block(kind@, data@, opt_view(name), opt_view(media_type)),
{
    if str_eq(kind, "image_url") {
        Ok(ContentBlock::Image { source: ImageSource::Url { url: string_from(data) } })
    } else if str_eq(kind, "image_base64") {
        let media_type = match media_type {
            Some(m) => m,
            None => string_from("image/png"),
        };
        Ok(ContentBlock::Image { source: ImageSource::Base64 { media_type, data: string_from(data) } })
    } else if str_eq(kind, "document_url") || str_eq(kind, "document_base64") {
        match media_type {
            Some(m) => {
                let source = if str_eq(kind, "document_url") {
                    BinarySource::Url { url: string_from(data) }
                } else {
                    BinarySource::Base64 { data: string_from(data) }
                };
                Ok(ContentBlock::Document { name, media_type: m, data: source })
            },
            None => Err(string_from("document requires media_type")),
        }
    } else {
        Err(concat2("unknown attachment kind: ", kind))
    }
}

/// The tool-result block a content block becomes.
pub open spec fn spec_data_block(b: ContentBlockView) -> DataBlockView {
    match b {
        ContentBlockView::Text(text) => DataBlockView::Text { text, mime_type: None },
        ContentBlockView::Image(source) => DataBlockView::Image(source),
        ContentBlockView::Document { name, media_type, data } => DataBlockView::Document {
            name,
            media_type,
            data,
        },
    }
}

/// A copy of an optional string.
pub fn copy_opt_string(o: &Option<String>) -> (r: Option<String>)
    ensures
        r == *o,
{
    match o {
        Some(s) => Some(s.clone()),
        None => None,
    }
}

impl ImageSource {
    /// A copy of this source.
    pub fn copy(&self) -> (r: ImageSource)
        ensures
            r == *self,
    {
        match self {
            ImageSource::Url { url } => ImageSource::Url { url: url.clone() },
            ImageSource::Base64 { media_type, data } => ImageSource::Base64 {
                media_type: media_type.clone(),
                data: data.clone(),
            },
        }
    }
}

impl BinarySource {
    /// A copy of this source.
    pub fn copy(&self) -> (r: BinarySource)
        ensures
            r == *self,
    {
        match self {
            BinarySource::Url { url } => BinarySource::Url { url: url.clone() },
            BinarySource::Base64 { data } => BinarySource::Base64 { data: data.clone() },
        }
    }
}

impl ContentBlock {
    /// A copy of this block.
    pub fn copy(&self) -> (r: ContentBlock)
        ensures
            r == *self,
    {
        match self {
            ContentBlock::Text { text } => ContentBlock::Text { text: text.clone() },
            ContentBlock::Image { source } => ContentBlock::Image { source: source.copy() },
            ContentBlock::Document { name, media_type, data } => ContentBlock::Document {
                name: copy_opt_string(name),
                media_type: media_type.clone(),
                data: data.copy(),
            },
        }
    }
}

impl DataBlock {
    /// A copy of this block.
    pub fn copy(&self) -> (r: DataBlock)
        ensures
            r == *self,
    {
        match self {
            DataBlock::Text { text, mime_type } => DataBlock::Text {
                text: text.clone(),
                mime_type: copy_opt_string(mime_type),
            },
            DataBlock::Image { source } => DataBlock::Image { source: source.copy() },
            DataBlock::Document { name, media_type, data } => DataBlock::Document {
                name: copy_opt_string(name),
                media_type: media_type.clone(),
                data: data.copy(),
            },
        }
    }
}

/// Converts a content block into the tool-result block with the same content.
pub fn content_block_to_data_block(cb: &ContentBlock) -> (r: DataBlock)
    ensures
        r@ == spec_data_block(cb@),
{
    match cb {
        ContentBlock::Text { text } => DataBlock::Text { text: text.clone(), mime_type: None },
        ContentBlock::Image { source } => DataBlock::Image { source: source.copy() },
        ContentBlock::Document { name, media_type, data } => DataBlock::Document {
            name: copy_opt_string(name),
            media_type: media_type.clone(),
            data: data.copy(),
        },
    }
}

/// The text form of an attachment: its kind and what identifies it.
pub open spec fn spec_attachment_repr(b: ContentBlockView) -> Seq<char> {
    match b {
        ContentBlockView::Image(ImageSourceView::Url(url)) => "Attachment(image_url="@ + url + ")"@,
        ContentBlockView::Image(ImageSourceView::Base64 { media_type, .. }) => "Attachment(image_base64, "@
            + media_type + ")"@,
        ContentBlockView::Document { name, .. } => "Attachment(document, "@ + match name {
            Some(n) => n,
            None => "<unnamed>"@,
        } + ")"@,
        ContentBlockView::Text(_) => "Attachment(?)"@,
    }
}

/// Renders the text form of an attachment.
pub fn attachment_repr(b: &ContentBlock) -> (r: String)
    ensures
        r@ == spec_attachment_repr(b@),
{
    match b {
        ContentBlock::Image { source: ImageSource::Url { url } } => concat3(
            "Attachment(image_url=",
            url.as_str(),
            ")",
        ),
        ContentBlock::Image { source: ImageSource::Base64 { media_type, .. } } => concat3(
            "Attachment(image_base64, ",
            media_type.as_str(),
            ")",
        ),
        ContentBlock::Document { name, .. } => match name {
            Some(n) => concat3("Attachment(document, ", n.as_str(), ")"),
            None => concat3("Attachment(document, ", "<unnamed>", ")"),
        },
        ContentBlock::Text { .. } => string_from("Attachment(?)"),
    }
}

} // verus!
