use gemini_live_api::client::connection::{
    frame_text, listen_step, plan_dispatch, setup_outcome, tool_response, tool_response_message,
    websocket_url, FrameText, Inbound, IncomingFrame, ListenAction, ListenEvent, ListenState,
    ToolInvocation,
    GEMINI_WS_ENDPOINT,
};
use gemini_live_api::client::handle::activity_end_payload;
use gemini_live_api::error::GeminiError;
use gemini_live_api::json::error_value;
use gemini_live_api::types::{
    BidiGenerateContentServerContent, BidiGenerateContentSetupComplete,
    BidiGenerateContentToolCall, ClientMessagePayload, FunctionCall, FunctionResponse,
    ServerMessage, UsageMetadata,
};
use serde_json::Value;

fn error_json(text: &str) -> Value {
    let mut map = serde_json::Map::new();
    map.insert("error".to_string(), Value::String(text.to_string()));
    Value::Object(map)
}

#[test]
fn url_carries_the_key() {
    let url = websocket_url("abc123").unwrap();
    assert_eq!(url, format!("{}?key=abc123", GEMINI_WS_ENDPOINT));
    assert!(url.starts_with("wss://generativelanguage.googleapis.com/ws/"));
}

#[test]
fn frames_are_read_as_text() {
    assert_eq!(frame_text(IncomingFrame::Text("{}".to_string())), FrameText::Text("{}".to_string()));
    assert_eq!(
        frame_text(IncomingFrame::Binary("héllo".as_bytes().to_vec())),
        FrameText::Text("héllo".to_string())
    );
    assert_eq!(frame_text(IncomingFrame::Binary(vec![0xff, 0xfe])), FrameText::Undecodable);
    assert_eq!(frame_text(IncomingFrame::Ping), FrameText::Control);
    assert_eq!(frame_text(IncomingFrame::Pong), FrameText::Control);
    assert_eq!(frame_text(IncomingFrame::Frame), FrameText::Control);
    assert_eq!(frame_text(IncomingFrame::Close), FrameText::Close);
}

#[test]
fn setup_succeeds_only_on_acknowledgement() {
    let ack = ServerMessage { setup_complete: Some(BidiGenerateContentSetupComplete {}), ..Default::default() };
    assert!(setup_outcome(Some(Ok(Inbound::Message(ack)))).is_ok());
    assert!(matches!(
        setup_outcome(Some(Ok(Inbound::Message(ServerMessage::default())))),
        Err(GeminiError::UnexpectedMessage)
    ));
    assert!(matches!(setup_outcome(Some(Ok(Inbound::Unreadable))), Err(GeminiError::UnexpectedMessage)));
    assert!(matches!(setup_outcome(Some(Ok(Inbound::Control))), Err(GeminiError::UnexpectedMessage)));
    assert!(matches!(setup_outcome(Some(Ok(Inbound::Close))), Err(GeminiError::UnexpectedMessage)));
    assert!(matches!(setup_outcome(None), Err(GeminiError::ConnectionClosed)));
    let read_error = tokio_tungstenite::tungstenite::Error::ConnectionClosed;
    assert!(matches!(setup_outcome(Some(Err(read_error))), Err(GeminiError::WebSocketError(_))));
}

#[test]
fn listening_loop_decisions() {
    let mut st = ListenState::new();
    assert!(st.outgoing_open);
    assert!(matches!(listen_step(&mut st, ListenEvent::Shutdown), ListenAction::CloseAndEnd));
    match listen_step(&mut st, ListenEvent::Outgoing(Some(activity_end_payload()))) {
        ListenAction::Transmit(p) => assert_eq!(p, activity_end_payload()),
        _ => panic!("expected a transmission"),
    }
    assert!(st.outgoing_open);
    assert!(matches!(listen_step(&mut st, ListenEvent::Incoming(None)), ListenAction::End));
    assert!(matches!(
        listen_step(&mut st, ListenEvent::Incoming(Some(Err(tokio_tungstenite::tungstenite::Error::AlreadyClosed)))),
        ListenAction::Fail(GeminiError::WebSocketError(_))
    ));
    match listen_step(&mut st, ListenEvent::Incoming(Some(Ok(Inbound::Message(ServerMessage::default()))))) {
        ListenAction::Dispatch(m) => assert_eq!(m, ServerMessage::default()),
        _ => panic!("expected a dispatch"),
    }
    assert!(matches!(listen_step(&mut st, ListenEvent::Incoming(Some(Ok(Inbound::Close)))), ListenAction::Stop));
    assert!(matches!(listen_step(&mut st, ListenEvent::Incoming(Some(Ok(Inbound::Control)))), ListenAction::Continue));
    assert!(matches!(listen_step(&mut st, ListenEvent::Incoming(Some(Ok(Inbound::Unreadable)))), ListenAction::Continue));
    assert!(st.outgoing_open);
}

#[test]
fn closed_message_channel_stays_closed() {
    let mut st = ListenState::new();
    assert!(matches!(listen_step(&mut st, ListenEvent::Outgoing(None)), ListenAction::Continue));
    assert!(!st.outgoing_open);
    assert!(matches!(listen_step(&mut st, ListenEvent::Incoming(Some(Ok(Inbound::Control)))), ListenAction::Continue));
    assert!(!st.outgoing_open);
}

fn call(name: &str, id: &str) -> FunctionCall {
    FunctionCall { name: name.to_string(), args: Some(Value::Bool(true)), id: Some(id.to_string()) }
}

#[test]
fn dispatch_plan_follows_the_registered_handlers() {
    let message = ServerMessage {
        server_content: Some(BidiGenerateContentServerContent { turn_complete: true, ..Default::default() }),
        tool_call: Some(BidiGenerateContentToolCall { function_calls: vec![call("sum", "1"), call("unknown", "2")] }),
        usage_metadata: Some(UsageMetadata { total_token_count: Some(12), ..Default::default() }),
        ..Default::default()
    };
    let names = vec!["divide".to_string(), "sum".to_string()];
    let plan = plan_dispatch(message.clone(), true, false, &names);
    assert!(plan.turn_complete);
    assert_eq!(plan.server_content.unwrap().content, message.server_content.clone().unwrap());
    assert_eq!(plan.usage, None);
    assert_eq!(
        plan.tool_calls,
        vec![
            ToolInvocation { id: Some("1".to_string()), name: "sum".to_string(), args: Some(Value::Bool(true)), handled: true },
            ToolInvocation { id: Some("2".to_string()), name: "unknown".to_string(), args: Some(Value::Bool(true)), handled: false },
        ]
    );
    let plan = plan_dispatch(message.clone(), false, true, &vec![]);
    assert!(plan.server_content.is_none());
    assert_eq!(plan.usage.unwrap().metadata.total_token_count, Some(12));
    assert!(plan.tool_calls.iter().all(|i| !i.handled));
}

#[test]
fn dispatch_plan_of_an_empty_message() {
    let plan = plan_dispatch(ServerMessage::default(), true, true, &vec!["sum".to_string()]);
    assert!(plan.server_content.is_none());
    assert!(!plan.turn_complete);
    assert!(plan.tool_calls.is_empty());
    assert!(plan.usage.is_none());
}

fn invocation(name: &str, handled: bool) -> ToolInvocation {
    ToolInvocation { id: Some("7".to_string()), name: name.to_string(), args: None, handled }
}

#[test]
fn tool_answers() {
    let ok = tool_response(invocation("sum", true), Some(Ok(Value::from(3))));
    assert_eq!(ok, FunctionResponse { name: "sum".to_string(), response: Value::from(3), id: Some("7".to_string()) });
    let failed = tool_response(invocation("sum", true), Some(Err("boom".to_string())));
    assert_eq!(failed.response, error_json("boom"));
    let missing = tool_response(invocation("nope", false), None);
    assert_eq!(missing.response, error_json("Function not implemented by client."));
    assert_eq!(missing.name, "nope");
    assert_eq!(missing.id, Some("7".to_string()));
}

#[test]
fn tool_answers_are_sent_only_when_there_are_some() {
    assert_eq!(tool_response_message(vec![]), None);
    let r = FunctionResponse { name: "a".to_string(), response: Value::Null, id: None };
    match tool_response_message(vec![r.clone()]) {
        Some(ClientMessagePayload::ToolResponse(t)) => assert_eq!(t.function_responses, vec![r]),
        other => panic!("unexpected {:?}", other),
    }
}

#[test]
fn error_value_is_an_error_object() {
    assert_eq!(error_value("x".to_string()), error_json("x"));
}

#[test]
fn default_function_response_is_null() {
    let r = FunctionResponse::default();
    assert_eq!(r.name, "");
    assert_eq!(r.response, Value::Null);
    assert_eq!(r.id, None);
}
