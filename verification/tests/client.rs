use gemini_live_api::client::handle::{
    activity_end_payload, activity_start_payload, audio_chunk_payload, audio_stream_end_payload,
    pcm16_le, realtime_text_payload, text_turn_payload,
};
use gemini_live_api::error::GeminiError;
use gemini_live_api::types::{
    ActivityEnd, ActivityStart, AudioTranscriptionConfig, BidiGenerateContentRealtimeInput,
    ClientMessagePayload, Content, FunctionDeclaration, GenerationConfig, Part,
    RealtimeInputConfig, Role, Tool, TurnCoverage,
};
use gemini_live_api::{GeminiLiveClient, GeminiLiveClientBuilder};
use std::sync::Arc;

fn declaration(name: &str) -> FunctionDeclaration {
    FunctionDeclaration { name: name.to_string(), description: format!("{} tool", name), parameters: None }
}

#[test]
fn builder_starts_with_the_model_only() {
    let b: GeminiLiveClientBuilder<u32> =
        GeminiLiveClientBuilder::new_with_state("key".to_string(), "models/m".to_string(), 7);
    assert_eq!(b.api_key, "key");
    assert_eq!(b.state, 7);
    assert_eq!(b.initial_setup.model, "models/m");
    assert!(b.initial_setup.generation_config.is_none());
    assert!(b.initial_setup.tools.is_none());
    let d: GeminiLiveClientBuilder<u32> = GeminiLiveClientBuilder::new("k".to_string(), "m".to_string());
    assert_eq!(d.state, 0);
}

#[test]
fn builder_setters_set_one_field_each() {
    let b: GeminiLiveClientBuilder<()> = GeminiLiveClientBuilder::new("k".to_string(), "m".to_string())
        .generation_config(GenerationConfig { candidate_count: Some(1), ..Default::default() })
        .system_instruction(Content { parts: vec![], role: Some(Role::System) })
        .realtime_input_config(RealtimeInputConfig {
            turn_coverage: Some(TurnCoverage::TurnIncludesAllInput),
            ..Default::default()
        })
        .output_audio_transcription(AudioTranscriptionConfig {});
    let s = b.initial_setup;
    assert_eq!(s.model, "m");
    assert_eq!(s.generation_config.unwrap().candidate_count, Some(1));
    assert_eq!(s.system_instruction.unwrap().role, Some(Role::System));
    assert_eq!(s.realtime_input_config.unwrap().turn_coverage, Some(TurnCoverage::TurnIncludesAllInput));
    assert_eq!(s.output_audio_transcription, Some(AudioTranscriptionConfig {}));
    assert!(s.tools.is_none());
}

#[test]
fn tool_declarations_accumulate_in_one_tool() {
    let b: GeminiLiveClientBuilder<()> = GeminiLiveClientBuilder::new("k".to_string(), "m".to_string())
        .add_tool_declaration(declaration("sum"))
        .add_tool_declaration(declaration("divide"));
    let tools = b.initial_setup.tools.unwrap();
    assert_eq!(tools.len(), 1);
    assert_eq!(tools[0].function_declarations, vec![declaration("sum"), declaration("divide")]);
}

#[test]
fn tool_declaration_joins_the_first_of_several_tools() {
    let mut b: GeminiLiveClientBuilder<()> = GeminiLiveClientBuilder::new("k".to_string(), "m".to_string());
    b.initial_setup.tools = Some(vec![
        Tool { function_declarations: vec![declaration("a")] },
        Tool { function_declarations: vec![declaration("b")] },
    ]);
    let tools = b.add_tool_declaration(declaration("c")).initial_setup.tools.unwrap();
    assert_eq!(tools[0].function_declarations, vec![declaration("a"), declaration("c")]);
    assert_eq!(tools[1].function_declarations, vec![declaration("b")]);
}

#[test]
fn tool_declaration_into_an_empty_tool_list() {
    let mut b: GeminiLiveClientBuilder<()> = GeminiLiveClientBuilder::new("k".to_string(), "m".to_string());
    b.initial_setup.tools = Some(vec![]);
    let tools = b.add_tool_declaration(declaration("c")).initial_setup.tools.unwrap();
    assert_eq!(tools, vec![Tool { function_declarations: vec![declaration("c")] }]);
}

#[test]
fn text_turn_message() {
    match text_turn_payload("Hello".to_string(), true) {
        ClientMessagePayload::ClientContent(c) => {
            assert_eq!(c.turn_complete, Some(true));
            let turns = c.turns.unwrap();
            assert_eq!(turns.len(), 1);
            assert_eq!(turns[0].role, Some(Role::User));
            assert_eq!(turns[0].parts, vec![Part { text: Some("Hello".to_string()), ..Default::default() }]);
        }
        other => panic!("unexpected {:?}", other),
    }
}

#[test]
fn realtime_messages() {
    assert_eq!(
        realtime_text_payload("hi".to_string()),
        ClientMessagePayload::RealtimeInput(BidiGenerateContentRealtimeInput {
            text: Some("hi".to_string()),
            ..Default::default()
        })
    );
    assert_eq!(
        activity_start_payload(),
        ClientMessagePayload::RealtimeInput(BidiGenerateContentRealtimeInput {
            activity_start: Some(ActivityStart {}),
            ..Default::default()
        })
    );
    assert_eq!(
        activity_end_payload(),
        ClientMessagePayload::RealtimeInput(BidiGenerateContentRealtimeInput {
            activity_end: Some(ActivityEnd {}),
            ..Default::default()
        })
    );
    assert_eq!(
        audio_stream_end_payload(),
        ClientMessagePayload::RealtimeInput(BidiGenerateContentRealtimeInput {
            audio_stream_end: Some(true),
            ..Default::default()
        })
    );
}

#[test]
fn pcm_bytes_are_little_endian() {
    assert_eq!(pcm16_le(&[1, -2, 0x1234, i16::MIN]), vec![1, 0, 0xfe, 0xff, 0x34, 0x12, 0x00, 0x80]);
    assert_eq!(pcm16_le(&[]), Vec::<u8>::new());
}

#[test]
fn audio_chunk_message() {
    match audio_chunk_payload(&[1, -2], 16000, 1) {
        Some(ClientMessagePayload::RealtimeInput(input)) => {
            let blob = input.audio.clone().unwrap();
            assert_eq!(blob.mime_type, "audio/pcm;rate=16000");
            assert_eq!(blob.data, "AQD+/w==");
            assert_eq!(input, BidiGenerateContentRealtimeInput { audio: Some(blob), ..Default::default() });
        }
        other => panic!("unexpected {:?}", other),
    }
}

#[test]
fn empty_audio_chunk_sends_nothing() {
    assert_eq!(audio_chunk_payload(&[], 24000, 2), None);
}

#[test]
fn open_client_hands_out_its_channel() {
    let (shutdown_tx, _shutdown_rx) = tokio::sync::oneshot::channel::<()>();
    let (tx, mut rx) = tokio::sync::mpsc::channel(4);
    let client = GeminiLiveClient::from_channels(shutdown_tx, tx, Arc::new(5u8));
    assert_eq!(*client.state(), 5);
    let sender = client.sender_for_message().unwrap();
    sender.try_send(activity_start_payload()).unwrap();
    assert_eq!(rx.try_recv().unwrap(), activity_start_payload());
    let handed_out = client.get_outgoing_mpsc_sender_clone().unwrap();
    handed_out.try_send(activity_end_payload()).unwrap();
    assert_eq!(rx.try_recv().unwrap(), activity_end_payload());
}

#[test]
fn closed_client_refuses_to_send() {
    let (shutdown_tx, mut shutdown_rx) = tokio::sync::oneshot::channel::<()>();
    let (tx, _rx) = tokio::sync::mpsc::channel(4);
    let mut client = GeminiLiveClient::from_channels(shutdown_tx, tx, Arc::new(()));
    assert!(client.close().is_ok());
    assert_eq!(shutdown_rx.try_recv(), Ok(()));
    assert!(matches!(client.sender_for_message(), Err(GeminiError::NotReady)));
    assert!(client.get_outgoing_mpsc_sender_clone().is_none());
    assert!(client.close().is_ok());
    assert!(matches!(client.sender_for_message(), Err(GeminiError::NotReady)));
}

#[test]
fn delivery_outcomes() {
    assert!(GeminiLiveClient::<()>::delivery_result(true).is_ok());
    assert!(matches!(GeminiLiveClient::<()>::delivery_result(false), Err(GeminiError::SendError)));
}

#[test]
fn builder_from_the_client_type() {
    let b = GeminiLiveClient::builder_with_state("k".to_string(), "m".to_string(), 3i64);
    assert_eq!(b.state, 3);
    assert_eq!(b.initial_setup.model, "m");
}
