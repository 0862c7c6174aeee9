//! Convenience helpers for building `rmcp::model::CallToolResult` values.
//!
//! These wrappers eliminate the repetitive boilerplate of constructing
//! content vectors and setting the `is_error` flag for every tool handler.

use vstd::prelude::*;
use crate::error::KanameError;
use crate::json::{json_compact_text, json_pretty_text, json_to_compact, json_to_pretty};
use crate::mcp::{
    error_result, rmcp_block_text, rmcp_error_result, rmcp_reply_content, rmcp_reply_has_meta,
    rmcp_reply_has_structured_content, rmcp_reply_is_complete, rmcp_reply_is_error, rmcp_success_result,
    rmcp_text_block, success_result, text_block,
};

verus! {

/// The reply that holds `text` as its single text block, flagged as an error
/// or not.
pub open spec fn text_reply(text: Seq<char>, is_error: bool) -> rmcp::model::CallToolResult {
    if is_error {
        rmcp_error_result(seq![rmcp_text_block(text)])
    } else {
        rmcp_success_result(seq![rmcp_text_block(text)])
    }
}

/// `reply` is the reply that holds `text` as its single text block: it is
/// the `rmcp` result built from that block, flagged as an error or not, with
/// no structured content, no metadata, and the result type `complete`.
pub open spec fn is_text_reply(reply: rmcp::model::CallToolResult, text: Seq<char>, is_error: bool) -> bool {
    &&& reply == text_reply(text, is_error)
    &&& rmcp_reply_content(reply) == seq![rmcp_text_block(text)]
    &&& rmcp_block_text(rmcp_text_block(text)) == Some(text)
    &&& rmcp_reply_is_error(reply) == Some(is_error)
    &&& !rmcp_reply_has_structured_content(reply)
    &&& !rmcp_reply_has_meta(reply)
    &&& rmcp_reply_is_complete(reply)
}

/// The reply to a tool call whose result was serialised to a JSON value
/// first: the compact text of the value, or the serialisation error.
pub open spec fn serialized_reply(
    serialized: Result<serde_json::Value, serde_json::Error>,
    reply: Result<rmcp::model::CallToolResult, KanameError>,
) -> bool {
    match serialized {
        Ok(value) => reply matches Ok(r) && is_text_reply(r, json_compact_text(value), false),
        Err(err) => reply == Err::<rmcp::model::CallToolResult, KanameError>(KanameError::Json(err)),
    }
}

/// Convenience constructors for MCP tool call results.
///
/// Each method returns a fully-formed `CallToolResult` ready to be
/// returned from a tool handler.
pub struct ToolResponse;

impl ToolResponse {
    /// Build a `CallToolResult` with a single text content block.
    fn build(text: String, is_error: bool) -> (reply: rmcp::model::CallToolResult)
        ensures
            is_text_reply(reply, text@, is_error),
    {
        let block = text_block(text);
        let mut content = Vec::new();
        content.push(block);
        assert(content@ =~= seq![rmcp_text_block(text@)]);
        if is_error {
            error_result(content)
        } else {
            success_result(content)
        }
    }

    /// Build a successful JSON result: the value serialised as compact JSON,
    /// in a single text content block.
    pub fn success(value: &serde_json::Value) -> (reply: rmcp::model::CallToolResult)
        ensures
            is_text_reply(reply, json_compact_text(*value), false),
    {
        let text = match json_to_compact(value) {
            Ok(text) => text,
            Err(err) => err.to_string(),
        };
        Self::build(text, false)
    }

    /// Build an error result with a plain-text message.
    pub fn error(msg: &str) -> (reply: rmcp::model::CallToolResult)
        ensures
            is_text_reply(reply, msg@, true),
    {
        Self::build(msg.to_owned(), true)
    }

    /// Build a successful result containing plain text.
    pub fn text(msg: &str) -> (reply: rmcp::model::CallToolResult)
        ensures
            is_text_reply(reply, msg@, false),
    {
        Self::build(msg.to_owned(), false)
    }

    /// Build a successful result with pretty-printed JSON as text.
    ///
    /// Unlike `success`, which produces compact JSON, this variant uses
    /// `serde_json::to_string_pretty` for human-readable output.
    pub fn json_text(value: &serde_json::Value) -> (reply: rmcp::model::CallToolResult)
        ensures
            is_text_reply(reply, json_pretty_text(*value), false),
    {
        let text = match json_to_pretty(value) {
            Ok(text) => text,
            Err(err) => err.to_string(),
        };
        Self::build(text, false)
    }

    /// Build a successful result from a value already serialised to JSON
    /// (with `serde_json::to_value`); a serialisation error is passed on.
    pub fn from_serialize(serialized: Result<serde_json::Value, serde_json::Error>) -> (reply: Result<
        rmcp::model::CallToolResult,
        KanameError,
    >)
        ensures
            serialized_reply(serialized, reply),
    {
        match serialized {
            Ok(value) => Ok(Self::success(&value)),
            Err(err) => Err(KanameError::Json(err)),
        }
    }
}

/// Build a successful `CallToolResult` from a value already serialised to
/// JSON (with `serde_json::to_value`); a serialisation error is passed on.
pub fn json_ok(serialized: Result<serde_json::Value, serde_json::Error>) -> (reply: Result<
    rmcp::model::CallToolResult,
    KanameError,
>)
    ensures
        serialized_reply(serialized, reply),
{
    ToolResponse::from_serialize(serialized)
}

/// Build an error `CallToolResult` from the text of an error.
pub fn json_err(message: &str) -> (reply: rmcp::model::CallToolResult)
    ensures
        is_text_reply(reply, message@, true),
{
    ToolResponse::error(message)
}

/// Convert the outcome of an operation into a `CallToolResult`.
///
/// On `Ok`, the value (already serialised to JSON) becomes compact JSON text
/// (like `json_ok`). On `Err`, the text of the error becomes a plain-text error
/// result (like `json_err`).
pub fn json_result(result: Result<Result<serde_json::Value, serde_json::Error>, String>) -> (reply: Result<
    rmcp::model::CallToolResult,
    KanameError,
>)
    ensures
        match result {
            Ok(serialized) => serialized_reply(serialized, reply),
            Err(message) => reply matches Ok(r) && is_text_reply(r, message@, true),
        },
{
    match result {
        Ok(serialized) => json_ok(serialized),
        Err(message) => Ok(json_err(message.as_str())),
    }
}

/// Two replies that hold the same text, one flagged as an error and one not,
/// differ in the error flag alone: the same single text block, and neither
/// carries structured content or metadata.
pub proof fn lemma_error_and_text_differ_only_in_flag(
    error_reply: rmcp::model::CallToolResult,
    text_reply: rmcp::model::CallToolResult,
    text: Seq<char>,
)
    requires
        is_text_reply(error_reply, text, true),
        is_text_reply(text_reply, text, false),
    ensures
        rmcp_reply_content(error_reply) == rmcp_reply_content(text_reply),
        rmcp_reply_content(error_reply).len() == 1,
        rmcp_block_text(rmcp_reply_content(error_reply)[0]) == Some(text),
        rmcp_reply_is_error(error_reply) == Some(true),
        rmcp_reply_is_error(text_reply) == Some(false),
        error_reply != text_reply,
        !rmcp_reply_has_structured_content(error_reply) && !rmcp_reply_has_structured_content(text_reply),
        !rmcp_reply_has_meta(error_reply) && !rmcp_reply_has_meta(text_reply),
{
}

/// A reply that holds a text is the `rmcp` result with one text block of
/// exactly that text, flagged as asked, with no structured content and no
/// metadata.
pub proof fn lemma_text_reply_fields(reply: rmcp::model::CallToolResult, text: Seq<char>, is_error: bool)
    requires
        is_text_reply(reply, text, is_error),
    ensures
        rmcp_reply_is_error(reply) == Some(is_error),
        rmcp_reply_content(reply).len() == 1,
        rmcp_reply_content(reply)[0] == rmcp_text_block(text),
        rmcp_block_text(rmcp_reply_content(reply)[0]) == Some(text),
        !rmcp_reply_has_structured_content(reply),
        !rmcp_reply_has_meta(reply),
        is_error ==> reply == rmcp_error_result(seq![rmcp_text_block(text)]),
        !is_error ==> reply == rmcp_success_result(seq![rmcp_text_block(text)]),
{
}

/// The reply to a value serialised to JSON is always a success, whatever the
/// value: `Ok` of a result flagged as no error whose single text block is the
/// value's compact JSON text. A serialisation error is passed on as
/// `KanameError::Json`.
pub proof fn lemma_serialized_reply(
    serialized: Result<serde_json::Value, serde_json::Error>,
    reply: Result<rmcp::model::CallToolResult, KanameError>,
)
    requires
        serialized_reply(serialized, reply),
    ensures
        serialized matches Ok(value) ==> {
            &&& reply matches Ok(r)
            &&& rmcp_reply_is_error(r) == Some(false)
            &&& rmcp_reply_content(r) == seq![rmcp_text_block(json_compact_text(value))]
            &&& rmcp_block_text(rmcp_reply_content(r)[0]) == Some(json_compact_text(value))
            &&& r == rmcp_success_result(seq![rmcp_text_block(json_compact_text(value))])
        },
        serialized matches Err(err) ==> reply == Err::<rmcp::model::CallToolResult, KanameError>(KanameError::Json(err)),
{
}

} // verus!
