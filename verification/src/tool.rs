//! The interaction tool: one question to a human, one tool-call result.

use crate::protocol::protocol_result;
use crate::request::{
    lemma_request_ids_distinct, popup_request_for, request_id_text, InteractionRequest,
    InteractionRequestView, PopupRequest, PopupRequestView, RequestIdSource,
};
use crate::response::{normalize_outcome, normalized_response, PopupResponse, ToolResultView};
use crate::session::{
    resolve_session_id, resolved_session, FallbackPolicy, SessionSources, SessionSourcesView,
};
use vstd::prelude::*;
use vstd::string::to_string_from_display_ensures;

verus! {

/// The tool that asks a human: it accepts predefined choices, free text and
/// images in the answer.
pub struct InteractionTool;

impl Clone for InteractionTool {
    fn clone(&self) -> (copy: InteractionTool)
        ensures
            copy == *self,
    {
        InteractionTool
    }
}

/// The popup request that the tool makes of a caller's request when its
/// identifier source has handed out `issued` identifiers: the session is
/// resolved under the enhanced policy, with the caller's working directory as
/// the explicit override.
pub open spec fn prepared_request(
    request: InteractionRequestView,
    sources: SessionSourcesView,
    issued: nat,
) -> PopupRequestView {
    popup_request_for(
        request,
        request_id_text(issued),
        resolved_session(request.working_directory, sources, FallbackPolicy::Enhanced),
    )
}

/// Whether `out` is what the tool returns for what the popup subsystem gave:
/// for an answer, the protocol's form of the normalized answer; for a
/// failure, the protocol's internal error with the failure's display text as
/// its message.
pub open spec fn is_conclusion(
    outcome: Result<PopupResponse, anyhow::Error>,
    out: Result<rmcp::model::CallToolResult, rmcp::model::ErrorData>,
) -> bool {
    match outcome {
        Ok(response) => out == protocol_result(normalized_response(response@)),
        Err(error) => exists|text: String|
            #[trigger] to_string_from_display_ensures::<anyhow::Error>(&error, text) && out
                == protocol_result(ToolResultView::Failure { message: text@ }),
    }
}

impl InteractionTool {
    /// Builds the popup request for a caller's request, with a fresh identifier.
    pub fn prepare(
        request: InteractionRequest,
        sources: &SessionSources,
        ids: &mut RequestIdSource,
    ) -> (popup: PopupRequest)
        requires
            !old(ids).is_exhausted(),
        ensures
            popup@ == prepared_request(request@, sources@, old(ids).issued()),
            popup@.is_normalized(),
            final(ids).issued() == old(ids).issued() + 1,
    {
        let session_id = resolve_session_id(
            &request.working_directory,
            sources,
            FallbackPolicy::Enhanced,
        );
        let id = ids.fresh();
        PopupRequest::build(request, id, session_id)
    }

    /// Turns what the popup subsystem returned into the protocol's result.
    pub fn conclude(outcome: Result<PopupResponse, anyhow::Error>) -> (out: Result<
        rmcp::model::CallToolResult,
        rmcp::model::ErrorData,
    >)
        ensures
            is_conclusion(outcome, out),
    {
        let flattened: Result<PopupResponse, String> = match outcome {
            Ok(response) => Ok(response),
            Err(error) => Err(error.to_string()),
        };
        normalize_outcome(flattened).into_protocol()
    }

    /// Asks the human: builds the popup request, hands it to the popup
    /// subsystem once, and turns what comes back into the protocol's result.
    pub fn zhi<F>(
        request: InteractionRequest,
        sources: &SessionSources,
        ids: &mut RequestIdSource,
        display_popup: F,
    ) -> (out: Result<rmcp::model::CallToolResult, rmcp::model::ErrorData>) where
        F: FnOnce(&PopupRequest) -> Result<PopupResponse, anyhow::Error>,

        requires
            !old(ids).is_exhausted(),
            forall|popup: PopupRequest|
                popup@ == prepared_request(request@, sources@, old(ids).issued())
                    ==> #[trigger] call_requires(display_popup, (&popup,)),
        ensures
            final(ids).issued() == old(ids).issued() + 1,
            exists|popup: PopupRequest, outcome: Result<PopupResponse, anyhow::Error>|
                {
                    &&& popup@ == prepared_request(request@, sources@, old(ids).issued())
                    &&& #[trigger] call_ensures(display_popup, (&popup,), outcome)
                    &&& is_conclusion(outcome, out)
                },
    {
        let popup = Self::prepare(request, sources, ids);
        let outcome = display_popup(&popup);
        Self::conclude(outcome)
    }
}

/// A working directory that the caller gives, and that is not empty, is the
/// session identifier of the popup request, whatever the environment holds.
pub proof fn lemma_working_directory_names_session(
    request: InteractionRequestView,
    sources: SessionSourcesView,
    issued: nat,
)
    requires
        request.working_directory matches Some(directory) && directory.len() > 0,
    ensures
        prepared_request(request, sources, issued).session_id == request.working_directory,
{
}

/// Where the caller gives no working directory and the dedicated session
/// variable is set and not empty, the variable's value is the session
/// identifier of the popup request, whatever the directory variable and the
/// current directory are.
pub proof fn lemma_session_variable_names_session(
    request: InteractionRequestView,
    sources: SessionSourcesView,
    issued: nat,
)
    requires
        request.working_directory is None,
        sources.session_variable matches Some(value) && value.len() > 0,
    ensures
        prepared_request(request, sources, issued).session_id == sources.session_variable,
{
}

/// A request without choices gives a popup request whose choices are absent,
/// not an empty list; a request with choices gives a popup request with the
/// same choices in the same order.
pub proof fn lemma_choices_are_normalized(
    request: InteractionRequestView,
    sources: SessionSourcesView,
    issued: nat,
)
    ensures
        request.predefined_options.len() == 0 ==> prepared_request(
            request,
            sources,
            issued,
        ).predefined_options is None,
        request.predefined_options.len() > 0 ==> prepared_request(
            request,
            sources,
            issued,
        ).predefined_options == Some(request.predefined_options),
        prepared_request(request, sources, issued).is_normalized(),
        prepared_request(request, sources, issued).message == request.message,
        prepared_request(request, sources, issued).is_markdown == request.is_markdown,
{
}

/// The tool is not idempotent: the same request, prepared at two different
/// counts of one identifier source, gives two popup requests with different
/// identifiers. Two calls in a row are such a pair, since each call moves the
/// count on by one.
pub proof fn lemma_repeated_requests_differ(
    request: InteractionRequestView,
    sources: SessionSourcesView,
    issued: nat,
    issued_later: nat,
)
    requires
        issued < issued_later,
    ensures
        prepared_request(request, sources, issued).id != prepared_request(
            request,
            sources,
            issued_later,
        ).id,
        prepared_request(request, sources, issued).id != prepared_request(
            request,
            sources,
            issued + 1,
        ).id,
{
    lemma_request_ids_distinct(issued, issued_later);
    lemma_request_ids_distinct(issued, issued + 1);
}

} // verus!
