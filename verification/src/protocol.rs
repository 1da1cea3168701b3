//! The tool-calling protocol's own types, made from tool-call results, and
//! the error type with which the popup subsystem fails.

use crate::response::{ResultBlock, ResultBlockView, ToolResult, ToolResultView};
use vstd::prelude::*;

verus! {

/// `rmcp::model::ContentBlock`, one block of a result in the protocol's own
/// form. Nothing is claimed of what a value holds.
#[verifier::external_type_specification]
#[verifier::external_body]
pub struct ExProtocolBlock(rmcp::model::ContentBlock);

/// `rmcp::model::CallToolResult`, the protocol's result of a tool call.
/// Nothing is claimed of what a value holds.
#[verifier::external_type_specification]
#[verifier::external_body]
pub struct ExCallToolResult(rmcp::model::CallToolResult);

/// `rmcp::model::ErrorData`, the protocol's error. Nothing is claimed of
/// what a value holds.
#[verifier::external_type_specification]
#[verifier::external_body]
pub struct ExErrorData(rmcp::model::ErrorData);

/// `anyhow::Error`, the error with which the popup subsystem fails. Nothing
/// is claimed of what a value holds.
#[verifier::external_type_specification]
#[verifier::external_body]
pub struct ExPopupError(anyhow::Error);

/// What `rmcp::model::ContentBlock::text` makes of a text.
pub uninterp spec fn protocol_text_block(text: Seq<char>) -> rmcp::model::ContentBlock;

/// What `rmcp::model::ContentBlock::image` makes of image data and a MIME type.
pub uninterp spec fn protocol_image_block(
    data: Seq<char>,
    mime_type: Seq<char>,
) -> rmcp::model::ContentBlock;

/// What `rmcp::model::CallToolResult::success` makes of a list of blocks.
pub uninterp spec fn protocol_success(
    content: Seq<rmcp::model::ContentBlock>,
) -> rmcp::model::CallToolResult;

/// What `rmcp::model::ErrorData::internal_error` makes of a message, with no further data.
pub uninterp spec fn protocol_internal_error(message: Seq<char>) -> rmcp::model::ErrorData;

/// Calls `rmcp::model::ContentBlock::text`, which wraps the text in a text
/// block without metadata or annotations; the result depends on the text alone.
#[verifier::external_body]
fn text_block(text: String) -> (block: rmcp::model::ContentBlock)
    ensures
        block == protocol_text_block(text@),
{
    rmcp::model::ContentBlock::text(text)
}

/// Calls `rmcp::model::ContentBlock::image`, which wraps base64 data and a
/// MIME type in an image block without metadata or annotations; the result
/// depends on the two texts alone.
#[verifier::external_body]
fn image_block(data: String, mime_type: String) -> (block: rmcp::model::ContentBlock)
    ensures
        block == protocol_image_block(data@, mime_type@),
{
    rmcp::model::ContentBlock::image(data, mime_type)
}

/// Calls `rmcp::model::CallToolResult::success`, which stores the blocks as
/// they are in a result marked as no error; the result depends on the blocks alone.
#[verifier::external_body]
fn success_result(content: Vec<rmcp::model::ContentBlock>) -> (result: rmcp::model::CallToolResult)
    ensures
        result == protocol_success(content@),
{
    rmcp::model::CallToolResult::success(content)
}

/// Calls `rmcp::model::ErrorData::internal_error` with the message and no
/// data; the result depends on the message alone.
#[verifier::external_body]
fn internal_error(message: String) -> (error: rmcp::model::ErrorData)
    ensures
        error == protocol_internal_error(message@),
{
    rmcp::model::ErrorData::internal_error(message, None)
}

/// The protocol's block for a block of a tool-call result.
pub open spec fn protocol_block(block: ResultBlockView) -> rmcp::model::ContentBlock {
    match block {
        ResultBlockView::Text { text } => protocol_text_block(text),
        ResultBlockView::Image { data, mime_type } => protocol_image_block(data, mime_type),
    }
}

/// The protocol's form of a tool-call result: a success with the blocks in
/// the same order, or an internal error that carries the failure's message.
pub open spec fn protocol_result(result: ToolResultView) -> Result<
    rmcp::model::CallToolResult,
    rmcp::model::ErrorData,
> {
    match result {
        ToolResultView::Success { content } => Ok(
            protocol_success(content.map_values(|block| protocol_block(block))),
        ),
        ToolResultView::Failure { message } => Err(protocol_internal_error(message)),
    }
}

fn into_protocol_block(block: ResultBlock) -> (out: rmcp::model::ContentBlock)
    ensures
        out == protocol_block(block.deep_view()),
{
    match block {
        ResultBlock::Text { text } => text_block(text),
        ResultBlock::Image { data, mime_type } => image_block(data, mime_type),
    }
}

impl ToolResult {
    /// Hands the result to the tool-calling protocol in its own types.
    pub fn into_protocol(self) -> (out: Result<rmcp::model::CallToolResult, rmcp::model::ErrorData>)
        ensures
            out == protocol_result(self@),
    {
        match self {
            ToolResult::Success { content } => {
                let ghost items = content@;
                let mut blocks: Vec<rmcp::model::ContentBlock> = Vec::new();
                for block in it: content
                    invariant
                        it.seq() == items,
                        blocks@.len() == it.index(),
                        forall|i: int|
                            0 <= i < it.index() ==> #[trigger] blocks@[i] == protocol_block(
                                items[i].deep_view(),
                            ),
                {
                    blocks.push(into_protocol_block(block));
                }
                assert(blocks@ =~= content.deep_view().map_values(|block| protocol_block(block)));
                Ok(success_result(blocks))
            },
            ToolResult::Failure { message } => Err(internal_error(message)),
        }
    }
}

} // verus!
