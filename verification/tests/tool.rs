use interaction::request::{InteractionRequest, PopupRequest, RequestIdSource};
use interaction::response::{PopupResponse, ResponseItem};
use interaction::session::SessionSources;
use interaction::tool::InteractionTool;
use rmcp::model::ErrorCode;

fn bare_process() -> SessionSources {
    SessionSources {
        session_variable: None,
        directory_variable: None,
        current_directory: None,
        clock_seconds: Some(1_700_000_000),
        process_id: 4242,
    }
}

fn full_environment() -> SessionSources {
    SessionSources {
        session_variable: Some("X".to_string()),
        directory_variable: Some("/from/pwd".to_string()),
        current_directory: Some("/from/cwd".to_string()),
        clock_seconds: Some(1_700_000_000),
        process_id: 4242,
    }
}

fn question(options: &[&str], working_directory: Option<&str>) -> InteractionRequest {
    InteractionRequest {
        message: "Deploy now?".to_string(),
        predefined_options: options.iter().map(|option| option.to_string()).collect(),
        is_markdown: true,
        working_directory: working_directory.map(|directory| directory.to_string()),
    }
}

fn answer(items: Vec<ResponseItem>) -> Result<PopupResponse, anyhow::Error> {
    Ok(PopupResponse { items })
}

#[test]
fn working_directory_is_the_session_of_the_popup_request() {
    let mut ids = RequestIdSource::new();
    let popup = InteractionTool::prepare(
        question(&[], Some("/work/project")),
        &full_environment(),
        &mut ids,
    );
    assert_eq!(popup.session_id, Some("/work/project".to_string()));
}

#[test]
fn session_variable_is_the_session_without_a_working_directory() {
    let mut ids = RequestIdSource::new();
    let popup = InteractionTool::prepare(question(&[], None), &full_environment(), &mut ids);
    assert_eq!(popup.session_id, Some("X".to_string()));
}

#[test]
fn tool_resolves_under_the_enhanced_policy() {
    let mut ids = RequestIdSource::new();
    let popup = InteractionTool::prepare(question(&[], None), &bare_process(), &mut ids);
    assert_eq!(popup.session_id, Some("session_1700000000_pid_4242".to_string()));
}

#[test]
fn unreadable_clock_leaves_the_request_without_a_session() {
    let mut sources = bare_process();
    sources.clock_seconds = None;
    let mut ids = RequestIdSource::new();
    let popup = InteractionTool::prepare(question(&[], None), &sources, &mut ids);
    assert_eq!(popup.session_id, None);
    assert_eq!(popup.message, "Deploy now?");
}

#[test]
fn prepared_request_without_choices_has_absent_choices() {
    let mut ids = RequestIdSource::new();
    let popup = InteractionTool::prepare(question(&[], None), &bare_process(), &mut ids);
    assert_eq!(popup.predefined_options, None);
    assert_eq!(popup.bot_name, None);
}

#[test]
fn prepared_request_keeps_choices_in_order() {
    let mut ids = RequestIdSource::new();
    let popup = InteractionTool::prepare(question(&["A", "B"], None), &bare_process(), &mut ids);
    assert_eq!(popup.predefined_options, Some(vec!["A".to_string(), "B".to_string()]));
}

#[test]
fn prepared_request_is_complete() {
    let mut ids = RequestIdSource::resuming_after(7);
    let popup = InteractionTool::prepare(
        question(&["yes", "no"], Some("/w")),
        &full_environment(),
        &mut ids,
    );
    assert_eq!(
        popup,
        PopupRequest {
            id: "request_7".to_string(),
            message: "Deploy now?".to_string(),
            predefined_options: Some(vec!["yes".to_string(), "no".to_string()]),
            bot_name: None,
            session_id: Some("/w".to_string()),
            is_markdown: true,
        }
    );
}

#[test]
fn identical_requests_get_different_identifiers() {
    let mut ids = RequestIdSource::new();
    let first = InteractionTool::prepare(question(&["A"], Some("/w")), &bare_process(), &mut ids);
    let second = InteractionTool::prepare(question(&["A"], Some("/w")), &bare_process(), &mut ids);
    assert_ne!(first.id, second.id);
    assert_eq!(first.id, "request_0");
    assert_eq!(second.id, "request_1");
    assert_eq!(first.message, second.message);
    assert_eq!(first.session_id, second.session_id);
}

#[test]
fn popup_is_shown_the_prepared_request() {
    let mut ids = RequestIdSource::resuming_after(3);
    let mut shown: Vec<(String, String, Option<Vec<String>>, Option<String>, Option<String>, bool)> =
        Vec::new();
    let out = InteractionTool::zhi(
        question(&["A", "B"], Some("/work/project")),
        &full_environment(),
        &mut ids,
        |popup: &PopupRequest| {
            shown.push((
                popup.id.clone(),
                popup.message.clone(),
                popup.predefined_options.clone(),
                popup.bot_name.clone(),
                popup.session_id.clone(),
                popup.is_markdown,
            ));
            answer(vec![])
        },
    );
    assert!(out.is_ok());
    assert_eq!(
        shown,
        vec![(
            "request_3".to_string(),
            "Deploy now?".to_string(),
            Some(vec!["A".to_string(), "B".to_string()]),
            None,
            Some("/work/project".to_string()),
            true,
        )]
    );
}

#[test]
fn two_calls_with_the_same_input_are_two_interactions() {
    let mut ids = RequestIdSource::new();
    let mut seen: Vec<String> = Vec::new();
    for _ in 0..2 {
        let out = InteractionTool::zhi(
            question(&[], None),
            &bare_process(),
            &mut ids,
            |popup: &PopupRequest| {
                seen.push(popup.id.clone());
                answer(vec![ResponseItem::Text { text: "ok".to_string() }])
            },
        );
        assert!(out.is_ok());
    }
    assert_eq!(seen.len(), 2);
    assert_ne!(seen[0], seen[1]);
}

#[test]
fn text_then_image_keep_their_order() {
    let mut ids = RequestIdSource::new();
    let out = InteractionTool::zhi(
        question(&[], None),
        &bare_process(),
        &mut ids,
        |_popup: &PopupRequest| {
            answer(vec![
                ResponseItem::Text { text: "looks good".to_string() },
                ResponseItem::Image {
                    data: "aGVsbG8=".to_string(),
                    mime_type: "image/png".to_string(),
                },
            ])
        },
    );
    let result = out.unwrap();
    assert_eq!(result.is_error, Some(false));
    assert_eq!(result.content.len(), 2);
    assert_eq!(result.content[0].as_text().unwrap().text, "looks good");
    let image = result.content[1].as_image().unwrap();
    assert_eq!(image.data, "aGVsbG8=");
    assert_eq!(image.mime_type, "image/png");
}

#[test]
fn cancelled_popup_is_a_failure_with_its_message() {
    let mut ids = RequestIdSource::new();
    let out = InteractionTool::zhi(
        question(&[], None),
        &bare_process(),
        &mut ids,
        |_popup: &PopupRequest| Err(anyhow::Error::msg("cancelled by user")),
    );
    let error = out.unwrap_err();
    assert!(error.message.contains("cancelled by user"));
    assert_eq!(error.message, "cancelled by user");
    assert_eq!(error.code, ErrorCode::INTERNAL_ERROR);
    assert_eq!(error.data, None);
}

#[test]
fn failure_with_context_shows_the_outermost_words() {
    let failure = anyhow::Error::msg("connection refused").context("popup subsystem unavailable");
    let out = InteractionTool::conclude(Err(failure));
    assert_eq!(out.unwrap_err().message, "popup subsystem unavailable");
}

#[test]
fn unknown_content_is_a_failure_not_a_partial_result() {
    let mut ids = RequestIdSource::new();
    let out = InteractionTool::zhi(
        question(&[], None),
        &bare_process(),
        &mut ids,
        |_popup: &PopupRequest| {
            answer(vec![
                ResponseItem::Text { text: "fine".to_string() },
                ResponseItem::Unrecognized { kind: "audio".to_string() },
            ])
        },
    );
    let error = out.unwrap_err();
    assert_eq!(error.message, "unsupported content in popup response: audio");
    assert_eq!(error.code, ErrorCode::INTERNAL_ERROR);
}

#[test]
fn failed_call_still_uses_up_its_identifier() {
    let mut ids = RequestIdSource::new();
    let out = InteractionTool::zhi(
        question(&[], None),
        &bare_process(),
        &mut ids,
        |_popup: &PopupRequest| Err(anyhow::Error::msg("timed out")),
    );
    assert!(out.is_err());
    assert_eq!(ids.fresh(), "request_1");
}

#[test]
fn conclusion_of_an_answer_is_its_blocks() {
    let out = InteractionTool::conclude(answer(vec![ResponseItem::Text { text: "B".to_string() }]));
    let result = out.unwrap();
    assert_eq!(result.content.len(), 1);
    assert_eq!(result.content[0].as_text().unwrap().text, "B");
}

#[test]
fn tool_can_be_copied() {
    let tool = InteractionTool;
    let _copy: InteractionTool = tool.clone();
}
