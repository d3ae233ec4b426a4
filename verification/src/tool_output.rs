//! What a broker tool call answers: its content, the structured content
//! when the broker is set to send it, and the error text of a failed call.
use vstd::prelude::*;

use crate::client::ContentBlock;
use crate::request_log::{correlated_error_text, format_correlated_error, RequestContext};

verus! {

/// What a tool produced: content items and, for most tools, a structured
/// value `S`.
#[derive(Debug)]
pub struct ToolCallOutput<S> {
    pub content: Vec<ContentBlock>,
    pub structured: Option<S>,
}

/// The answer sent for a tool call.
#[derive(Debug)]
pub struct CallToolResult<S> {
    pub content: Vec<ContentBlock>,
    pub structured_content: Option<S>,
    pub is_error: bool,
}

/// The content of a result that is one text item.
pub open spec fn is_single_text(content: Seq<ContentBlock>, text: Seq<char>) -> bool {
    &&& content.len() == 1
    &&& content[0] matches ContentBlock::Text(t) && t@ == text
}

impl<S> ToolCallOutput<S> {
    /// One text item and a structured value.
    pub fn text_and_structured(text: String, structured: S) -> (res: Self)
        ensures
            is_single_text(res.content@, text@),
            res.structured == Some(structured),
    {
        ToolCallOutput { content: vec![ContentBlock::Text(text)], structured: Some(structured) }
    }

    /// One text item and no structured value.
    pub fn text(text: String) -> (res: Self)
        ensures
            is_single_text(res.content@, text@),
            res.structured is None,
    {
        ToolCallOutput { content: vec![ContentBlock::Text(text)], structured: None }
    }

    /// Given content items and a structured value.
    pub fn content_and_structured(content: Vec<ContentBlock>, structured: S) -> (res: Self)
        ensures
            res.content == content,
            res.structured == Some(structured),
    {
        ToolCallOutput { content, structured: Some(structured) }
    }

    /// A successful answer; the structured value goes with it only where the
    /// broker sends structured content.
    pub fn into_call_tool_result(self, include_structured_content: bool) -> (res: CallToolResult<S>)
        ensures
            res.content == self.content,
            !res.is_error,
            res.structured_content == if include_structured_content { self.structured } else { None },
    {
        let structured_content = if include_structured_content { self.structured } else { None };
        CallToolResult { content: self.content, structured_content, is_error: false }
    }
}

/// A failed answer carrying `text`.
pub fn tool_error_result<S>(text: String) -> (res: CallToolResult<S>)
    ensures
        res.is_error,
        is_single_text(res.content@, text@),
        res.structured_content is None,
{
    CallToolResult { content: vec![ContentBlock::Text(text)], structured_content: None, is_error: true }
}

pub open spec fn opt_text(o: Option<String>) -> Option<Seq<char>> {
    match o {
        Some(s) => Some(s@),
        None => None,
    }
}

/// The error text of a failed call: prefixed by the request, the tool and
/// the target where the call runs in a request context.
pub open spec fn tool_error_text(message: Seq<char>, context: Option<RequestContext>) -> Seq<char> {
    match context {
        Some(c) => correlated_error_text(message, c.request_id@, c.tool@, opt_text(c.target)),
        None => message,
    }
}

/// A failed answer for `message`, correlated with the call's context where
/// there is one.
pub fn format_tool_error_message<S>(message: &str, context: Option<&RequestContext>) -> (res: CallToolResult<S>)
    ensures
        res.is_error,
        res.structured_content is None,
        is_single_text(res.content@, tool_error_text(message@, match context { Some(c) => Some(*c), None => None })),
{
    match context {
        Some(c) => tool_error_result(format_correlated_error(message, c)),
        None => tool_error_result(message.to_owned()),
    }
}

/// The answer that ends a tool call run in `context`: the output as a
/// successful answer, or the error message as a correlated failed answer.
pub fn finish_tool_call<S>(
    result: Result<ToolCallOutput<S>, String>,
    include_structured_content: bool,
    context: &RequestContext,
) -> (res: CallToolResult<S>)
    ensures
        match result {
            Ok(output) => !res.is_error && res.content == output.content
                && res.structured_content == if include_structured_content { output.structured } else { None },
            Err(message) => res.is_error && res.structured_content is None
                && is_single_text(res.content@, tool_error_text(message@, Some(*context))),
        },
{
    match result {
        Ok(output) => output.into_call_tool_result(include_structured_content),
        Err(message) => format_tool_error_message(message.as_str(), Some(context)),
    }
}

} // verus!
