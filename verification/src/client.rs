//! A tool's answer as the command-line client sees it: the text it printed,
//! its content items in a uniform shape, and where an image in it is found.
use vstd::prelude::*;

use crate::text::str_eq;

verus! {

/// One content item of a tool result.
#[derive(Debug)]
pub enum ContentBlock {
    /// Plain text.
    Text(String),
    /// An image, its bytes as base64 `data`.
    Image { mime_type: String, data: String },
    /// Any other item, by the `type` and `image_url` string members of its
    /// JSON form (`None` where the member is missing or not a string).
    Other { kind: Option<String>, image_url: Option<String> },
}

/// A content item in the uniform shape the client reports: a JSON object of
/// which the `type`, `text` and `image_url` string members are kept.
#[derive(Debug)]
pub struct RawContent {
    pub kind: Option<String>,
    pub text: Option<String>,
    pub image_url: Option<String>,
}

/// A tool's answer.
#[derive(Debug)]
pub struct ToolResponse {
    pub is_error: bool,
    /// The text items, joined by newlines.
    pub text_output: String,
    /// The `image_url` string member of the structured content, if it has one.
    pub structured_image_url: Option<String>,
    pub raw_content: Vec<RawContent>,
}

pub open spec fn opt_view(o: Option<String>) -> Option<Seq<char>> {
    match o {
        Some(s) => Some(s@),
        None => None,
    }
}

/// The texts of the text items, in order.
pub open spec fn text_parts(c: Seq<ContentBlock>) -> Seq<Seq<char>>
    decreases c.len(),
{
    if c.len() == 0 {
        Seq::empty()
    } else {
        let rest = text_parts(c.drop_last());
        match c.last() {
            ContentBlock::Text(t) => rest.push(t@),
            _ => rest,
        }
    }
}

/// `parts` joined with a newline between each two.
pub open spec fn join_lines(parts: Seq<Seq<char>>) -> Seq<char>
    decreases parts.len(),
{
    if parts.len() == 0 {
        Seq::empty()
    } else if parts.len() == 1 {
        parts[0]
    } else {
        join_lines(parts.drop_last()) + "\n"@ + parts.last()
    }
}

/// The data URL an image item is reported with.
pub open spec fn image_data_url(mime_type: Seq<char>, data: Seq<char>) -> Seq<char> {
    "data:"@ + mime_type + ";base64,"@ + data
}

/// The uniform shape of one item, by the views of its members.
pub open spec fn normalized(c: ContentBlock, r: RawContent) -> bool {
    match c {
        ContentBlock::Text(t) => opt_view(r.kind) == Some("text"@) && opt_view(r.text) == Some(t@)
            && r.image_url is None,
        ContentBlock::Image { mime_type, data } => opt_view(r.kind) == Some("input_image"@)
            && r.text is None && opt_view(r.image_url) == Some(image_data_url(mime_type@, data@)),
        ContentBlock::Other { kind, image_url } => opt_view(r.kind) == opt_view(kind) && r.text is None
            && opt_view(r.image_url) == opt_view(image_url),
    }
}

/// The image URL of the first item from `i` on whose type is `input_image`
/// and which has an image URL.
pub open spec fn first_input_image_from(raw: Seq<RawContent>, i: int) -> Option<Seq<char>>
    decreases raw.len() - i,
{
    if i < 0 || i >= raw.len() {
        None
    } else if opt_view(raw[i].kind) == Some("input_image"@) && raw[i].image_url is Some {
        opt_view(raw[i].image_url)
    } else {
        first_input_image_from(raw, i + 1)
    }
}

fn push_str(out: &mut String, s: &str)
    ensures
        final(out)@ == old(out)@ + s@,
{
    out.append(s);
}

fn opt_clone(o: &Option<String>) -> (res: Option<String>)
    ensures
        opt_view(res) == opt_view(*o),
{
    match o {
        Some(s) => Some(s.clone()),
        None => None,
    }
}

/// The item in the uniform shape: text as `{type: text, text}`, an image as
/// `{type: input_image, image_url: data:<mime>;base64,<data>}`, anything else
/// as its own JSON form.
pub fn normalize_content(content: &ContentBlock) -> (res: RawContent)
    ensures
        normalized(*content, res),
{
    match content {
        ContentBlock::Text(t) => RawContent {
            kind: Some(String::from_str("text")),
            text: Some(t.clone()),
            image_url: None,
        },
        ContentBlock::Image { mime_type, data } => {
            let mut url = String::from_str("data:");
            push_str(&mut url, mime_type.as_str());
            push_str(&mut url, ";base64,");
            push_str(&mut url, data.as_str());
            RawContent { kind: Some(String::from_str("input_image")), text: None, image_url: Some(url) }
        },
        ContentBlock::Other { kind, image_url } => RawContent {
            kind: opt_clone(kind),
            text: None,
            image_url: opt_clone(image_url),
        },
    }
}

impl ToolResponse {
    /// The answer made of a tool result: its text items joined by newlines,
    /// every item in the uniform shape, an error only where the result says so.
    pub fn from_call_tool_result(
        content: Vec<ContentBlock>,
        is_error: Option<bool>,
        structured_image_url: Option<String>,
    ) -> (res: Self)
        ensures
            res.is_error == (is_error == Some(true)),
            res.text_output@ == join_lines(text_parts(content@)),
            opt_view(res.structured_image_url) == opt_view(structured_image_url),
            res.raw_content@.len() == content@.len(),
            forall|i: int| 0 <= i < content@.len() ==> normalized(content@[i], #[trigger] res.raw_content@[i]),
    {
        let mut text_output = String::new();
        let mut raw_content: Vec<RawContent> = Vec::new();
        let mut has_text = false;
        let mut i: usize = 0;
        while i < content.len()
            invariant
                i <= content@.len(),
                text_output@ == join_lines(text_parts(content@.take(i as int))),
                has_text == (text_parts(content@.take(i as int)).len() > 0),
                raw_content@.len() == i,
                forall|j: int| 0 <= j < i ==> normalized(content@[j], #[trigger] raw_content@[j]),
            decreases content@.len() - i,
        {
            let ghost before = content@.take(i as int);
            assert(content@.take(i + 1).drop_last() =~= before);
            let item = &content[i];
            match item {
                ContentBlock::Text(t) => {
                    if has_text {
                        push_str(&mut text_output, "\n");
                    }
                    push_str(&mut text_output, t.as_str());
                    has_text = true;
                    proof {
                        let parts = text_parts(content@.take(i + 1));
                        assert(parts =~= text_parts(before).push(t@));
                        assert(parts.drop_last() =~= text_parts(before));
                        assert(text_output@ =~= join_lines(parts));
                    }
                },
                _ => {
                    assert(text_parts(content@.take(i + 1)) =~= text_parts(before));
                },
            }
            raw_content.push(normalize_content(item));
            i = i + 1;
        }
        assert(content@.take(content@.len() as int) =~= content@);
        let is_error = match is_error {
            Some(b) => b,
            None => false,
        };
        ToolResponse { is_error, text_output, structured_image_url, raw_content }
    }

    /// The image URL of the answer: the structured content's `image_url`,
    /// else that of the first `input_image` item that has one.
    pub fn first_image_url(&self) -> (res: Option<String>)
        ensures
            opt_view(res) == match opt_view(self.structured_image_url) {
                Some(u) => Some(u),
                None => first_input_image_from(self.raw_content@, 0),
            },
    {
        if let Some(url) = &self.structured_image_url {
            return Some(url.clone());
        }
        let mut i: usize = 0;
        while i < self.raw_content.len()
            invariant
                i <= self.raw_content@.len(),
                self.structured_image_url is None,
                first_input_image_from(self.raw_content@, 0) == first_input_image_from(self.raw_content@, i as int),
            decreases self.raw_content@.len() - i,
        {
            let item = &self.raw_content[i];
            let is_image = match &item.kind {
                Some(k) => str_eq(k.as_str(), "input_image"),
                None => false,
            };
            if is_image {
                if let Some(url) = &item.image_url {
                    return Some(url.clone());
                }
            }
            i = i + 1;
        }
        None
    }
}

} // verus!
