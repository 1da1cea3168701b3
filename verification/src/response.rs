//! What the popup subsystem answers, and the tool-call result made of it.

use vstd::prelude::*;

verus! {

/// One item of what the popup subsystem answered.
#[derive(Debug, PartialEq, Eq)]
pub enum ResponseItem {
    /// Text that the human wrote or chose.
    Text { text: String },
    /// An image that the human attached: its data in base64, and its MIME type.
    Image { data: String, mime_type: String },
    /// Content that is neither text nor an image; `kind` is the subsystem's name for it.
    Unrecognized { kind: String },
}

/// The mathematical model of [`ResponseItem`].
pub ghost enum ResponseItemView {
    Text { text: Seq<char> },
    Image { data: Seq<char>, mime_type: Seq<char> },
    Unrecognized { kind: Seq<char> },
}

impl DeepView for ResponseItem {
    type V = ResponseItemView;

    open spec fn deep_view(&self) -> ResponseItemView {
        match self {
            ResponseItem::Text { text } => ResponseItemView::Text { text: text@ },
            ResponseItem::Image { data, mime_type } => ResponseItemView::Image {
                data: data@,
                mime_type: mime_type@,
            },
            ResponseItem::Unrecognized { kind } => ResponseItemView::Unrecognized { kind: kind@ },
        }
    }
}

/// What the popup subsystem answered: its items, in order.
#[derive(Debug, PartialEq, Eq)]
pub struct PopupResponse {
    pub items: Vec<ResponseItem>,
}

impl View for PopupResponse {
    type V = Seq<ResponseItemView>;

    open spec fn view(&self) -> Seq<ResponseItemView> {
        self.items.deep_view()
    }
}

/// One block of a tool-call result.
#[derive(Debug, PartialEq, Eq)]
pub enum ResultBlock {
    /// A block of text.
    Text { text: String },
    /// An image: its data in base64, and its MIME type.
    Image { data: String, mime_type: String },
}

/// The mathematical model of [`ResultBlock`].
pub ghost enum ResultBlockView {
    Text { text: Seq<char> },
    Image { data: Seq<char>, mime_type: Seq<char> },
}

impl DeepView for ResultBlock {
    type V = ResultBlockView;

    open spec fn deep_view(&self) -> ResultBlockView {
        match self {
            ResultBlock::Text { text } => ResultBlockView::Text { text: text@ },
            ResultBlock::Image { data, mime_type } => ResultBlockView::Image {
                data: data@,
                mime_type: mime_type@,
            },
        }
    }
}

/// The result of one interaction.
#[derive(Debug, PartialEq, Eq)]
pub enum ToolResult {
    /// The human answered: the blocks of the answer, in order.
    Success { content: Vec<ResultBlock> },
    /// The interaction failed: why, in words.
    Failure { message: String },
}

/// The mathematical model of [`ToolResult`].
pub ghost enum ToolResultView {
    Success { content: Seq<ResultBlockView> },
    Failure { message: Seq<char> },
}

impl View for ToolResult {
    type V = ToolResultView;

    open spec fn view(&self) -> ToolResultView {
        match self {
            ToolResult::Success { content } => ToolResultView::Success {
                content: content.deep_view(),
            },
            ToolResult::Failure { message } => ToolResultView::Failure { message: message@ },
        }
    }
}

/// The block that a text or image item becomes.
pub open spec fn block_of(item: ResponseItemView) -> ResultBlockView
    recommends
        !(item is Unrecognized),
{
    match item {
        ResponseItemView::Text { text } => ResultBlockView::Text { text },
        ResponseItemView::Image { data, mime_type } => ResultBlockView::Image { data, mime_type },
        ResponseItemView::Unrecognized { .. } => arbitrary(),
    }
}

/// Whether `at` is the place of the first item that is neither text nor image.
pub open spec fn is_first_unrecognized(items: Seq<ResponseItemView>, at: int) -> bool {
    &&& 0 <= at < items.len()
    &&& items[at] is Unrecognized
    &&& forall|before: int| 0 <= before < at ==> !(#[trigger] items[before] is Unrecognized)
}

/// Whether every item is text or an image.
pub open spec fn all_recognized(items: Seq<ResponseItemView>) -> bool {
    forall|at: int| 0 <= at < items.len() ==> !(#[trigger] items[at] is Unrecognized)
}

/// The place of the first item that is neither text nor image, where there is one.
pub open spec fn first_unrecognized(items: Seq<ResponseItemView>) -> int {
    choose|at: int| is_first_unrecognized(items, at)
}

/// Why a response with content of an unknown kind is refused.
pub open spec fn unrecognized_message(kind: Seq<char>) -> Seq<char> {
    "unsupported content in popup response: "@ + kind
}

/// The result for an answer: each item becomes the block of its kind, in the
/// same order; one item of an unknown kind fails the whole answer, and the
/// message names the kind of the first such item.
pub open spec fn normalized_response(items: Seq<ResponseItemView>) -> ToolResultView {
    if all_recognized(items) {
        ToolResultView::Success { content: items.map_values(|item| block_of(item)) }
    } else {
        ToolResultView::Failure {
            message: unrecognized_message(items[first_unrecognized(items)]->kind),
        }
    }
}

/// The result for what the popup subsystem returned: the normalized answer,
/// or a failure that carries the subsystem's own words.
pub open spec fn normalized_outcome(
    outcome: Result<Seq<ResponseItemView>, Seq<char>>,
) -> ToolResultView {
    match outcome {
        Ok(items) => normalized_response(items),
        Err(message) => ToolResultView::Failure { message },
    }
}

fn unrecognized_failure(kind: &String) -> (result: ToolResult)
    ensures
        result@ == (ToolResultView::Failure { message: unrecognized_message(kind@) }),
{
    let mut message: String = "unsupported content in popup response: ".to_owned();
    message.append(kind.as_str());
    ToolResult::Failure { message }
}

/// Turns an answer into a tool-call result.
pub fn normalize_response(response: PopupResponse) -> (result: ToolResult)
    ensures
        result@ == normalized_response(response@),
{
    let ghost views = response@;
    let mut content: Vec<ResultBlock> = Vec::new();
    for item in it: response.items
        invariant
            views == response@,
            views == it.seq().map_values(|item: ResponseItem| item.deep_view()),
            content.len() == it.index(),
            forall|i: int| 0 <= i < it.index() ==> !(#[trigger] views[i] is Unrecognized),
            forall|i: int|
                0 <= i < it.index() ==> #[trigger] content.deep_view()[i] == block_of(views[i]),
    {
        let ghost at = it.index();
        let ghost before = content.deep_view();
        match item {
            ResponseItem::Text { text } => {
                content.push(ResultBlock::Text { text });
            },
            ResponseItem::Image { data, mime_type } => {
                content.push(ResultBlock::Image { data, mime_type });
            },
            ResponseItem::Unrecognized { kind } => {
                proof {
                    assert(is_first_unrecognized(views, at));
                    assert(first_unrecognized(views) == at) by {
                        assert(is_first_unrecognized(views, first_unrecognized(views)));
                    }
                }
                return unrecognized_failure(&kind);
            },
        }
        assert forall|i: int| 0 <= i < at + 1 implies #[trigger] content.deep_view()[i]
            == block_of(views[i]) by {
            if i < at {
                assert(content.deep_view()[i] == before[i]);
            }
        }
    }
    assert(content.deep_view() =~= views.map_values(|item| block_of(item)));
    ToolResult::Success { content }
}

/// Turns what the popup subsystem returned, an answer or its failure in
/// words, into a tool-call result.
pub fn normalize_outcome(outcome: Result<PopupResponse, String>) -> (result: ToolResult)
    ensures
        result@ == normalized_outcome(
            match outcome {
                Ok(response) => Ok(response@),
                Err(message) => Err(message@),
            },
        ),
{
    match outcome {
        Ok(response) => normalize_response(response),
        Err(message) => ToolResult::Failure { message },
    }
}

/// An answer of text and images loses nothing: the result has one block for
/// each item, in the item's place and of the item's kind, with the item's
/// text, or data and MIME type.
pub proof fn lemma_answer_keeps_every_item(items: Seq<ResponseItemView>)
    requires
        all_recognized(items),
    ensures
        normalized_response(items) is Success,
        normalized_response(items)->content.len() == items.len(),
        forall|at: int|
            0 <= at < items.len() ==> #[trigger] normalized_response(items)->content[at]
                == block_of(items[at]),
        forall|at: int|
            0 <= at < items.len() ==> (#[trigger] items[at] is Text <==> normalized_response(
                items,
            )->content[at] is Text),
{
}

/// An answer with content of an unknown kind gives no partial result: it
/// fails, whatever else it holds, and so does a failure of the subsystem.
pub proof fn lemma_failures_are_never_partial(items: Seq<ResponseItemView>, message: Seq<char>)
    ensures
        !all_recognized(items) ==> normalized_response(items) is Failure,
        normalized_outcome(Err(message)) == (ToolResultView::Failure { message }),
{
}

} // verus!
