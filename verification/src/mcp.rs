//! The `rmcp` values that the library builds: tool descriptions for the
//! handshake, and tool call results.
//!
//! Each value is opaque here; a name below stands for what the `rmcp`
//! constructor builds from its arguments.

use vstd::prelude::*;
use crate::json::{JsonObject, json_map_entries};

verus! {

/// `rmcp::model::Tool`, a tool as advertised to an MCP client.
#[verifier::external_type_specification]
#[verifier::external_body]
pub struct ExMcpModelTool(rmcp::model::Tool);

/// `rmcp::model::CallToolResult`, the reply to a tool call.
#[verifier::external_type_specification]
#[verifier::external_body]
pub struct ExCallToolResult(rmcp::model::CallToolResult);

/// `rmcp::model::ContentBlock`, one block of a tool call's content.
#[verifier::external_type_specification]
#[verifier::external_body]
pub struct ExContentBlock(rmcp::model::ContentBlock);

/// The tool that `rmcp::model::Tool::new` builds from a name, a description
/// and the entries of an input schema object.
pub uninterp spec fn rmcp_tool(
    name: Seq<char>,
    description: Seq<char>,
    input_schema: Map<Seq<char>, serde_json::Value>,
) -> rmcp::model::Tool;

/// The text block that `rmcp::model::ContentBlock::text` builds.
pub uninterp spec fn rmcp_text_block(text: Seq<char>) -> rmcp::model::ContentBlock;

/// The result that `rmcp::model::CallToolResult::success` builds from content
/// blocks: the blocks, flagged as no error.
pub uninterp spec fn rmcp_success_result(content: Seq<rmcp::model::ContentBlock>) -> rmcp::model::CallToolResult;

/// The result that `rmcp::model::CallToolResult::error` builds from content
/// blocks: the blocks, flagged as an error.
pub uninterp spec fn rmcp_error_result(content: Seq<rmcp::model::ContentBlock>) -> rmcp::model::CallToolResult;

/// The `content` field of a tool call result: its content blocks.
pub uninterp spec fn rmcp_reply_content(reply: rmcp::model::CallToolResult) -> Seq<rmcp::model::ContentBlock>;

/// The `is_error` field of a tool call result.
pub uninterp spec fn rmcp_reply_is_error(reply: rmcp::model::CallToolResult) -> Option<bool>;

/// Whether the `structured_content` field of a tool call result is `Some`.
pub uninterp spec fn rmcp_reply_has_structured_content(reply: rmcp::model::CallToolResult) -> bool;

/// Whether the `meta` field of a tool call result is `Some`.
pub uninterp spec fn rmcp_reply_has_meta(reply: rmcp::model::CallToolResult) -> bool;

/// Whether the `result_type` field of a tool call result is
/// `Some(ResultType::COMPLETE)`.
pub uninterp spec fn rmcp_reply_is_complete(reply: rmcp::model::CallToolResult) -> bool;

/// What `ContentBlock::as_text` gives of a block, by its `text` field: the
/// text of a text block, `None` for every other kind of block.
pub uninterp spec fn rmcp_block_text(block: rmcp::model::ContentBlock) -> Option<Seq<char>>;

/// `rmcp::model::Tool::new`: the tool with this name, description and input
/// schema (the map is moved into the `Arc` that the tool holds).
#[verifier::external_body]
pub(crate) fn make_tool(name: String, description: String, input_schema: JsonObject) -> (tool: rmcp::model::Tool)
    ensures
        tool == rmcp_tool(name@, description@, json_map_entries(input_schema)),
{
    rmcp::model::Tool::new(name, description, input_schema)
}

/// `rmcp::model::ContentBlock::text`: a text block holding `text`
/// (`ContentBlock::Text(TextContent::new(text))`).
#[verifier::external_body]
pub(crate) fn text_block(text: String) -> (block: rmcp::model::ContentBlock)
    ensures
        block == rmcp_text_block(text@),
        rmcp_block_text(block) == Some(text@),
{
    rmcp::model::ContentBlock::text(text)
}

/// `rmcp::model::CallToolResult::success`: a result with these blocks,
/// `is_error` set to `Some(false)`, no structured content, no metadata, and
/// the result type `complete`.
#[verifier::external_body]
pub(crate) fn success_result(content: Vec<rmcp::model::ContentBlock>) -> (reply: rmcp::model::CallToolResult)
    ensures
        reply == rmcp_success_result(content@),
        rmcp_reply_content(reply) == content@,
        rmcp_reply_is_error(reply) == Some(false),
        !rmcp_reply_has_structured_content(reply),
        !rmcp_reply_has_meta(reply),
        rmcp_reply_is_complete(reply),
{
    rmcp::model::CallToolResult::success(content)
}

/// `rmcp::model::CallToolResult::error`: a result with these blocks,
/// `is_error` set to `Some(true)`, no structured content, no metadata, and
/// the result type `complete`.
#[verifier::external_body]
pub(crate) fn error_result(content: Vec<rmcp::model::ContentBlock>) -> (reply: rmcp::model::CallToolResult)
    ensures
        reply == rmcp_error_result(content@),
        rmcp_reply_content(reply) == content@,
        rmcp_reply_is_error(reply) == Some(true),
        !rmcp_reply_has_structured_content(reply),
        !rmcp_reply_has_meta(reply),
        rmcp_reply_is_complete(reply),
{
    rmcp::model::CallToolResult::error(content)
}

} // verus!
