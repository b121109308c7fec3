//! The messages of the Live API and the values they carry.
//!
//! Optional fields that are `None` are left out of the JSON that the client
//! sends. A JSON object with named entries (a tool's parameter schema) is kept
//! as a list of name/value pairs, in the order the entries were given.
use vstd::prelude::*;
use crate::json::json_null;

pub use crate::codes::{
    ActivityHandling, EndSensitivity, ResponseModality, Role, SpeechLanguageCode,
    StartSensitivity, TurnCoverage,
};

verus! {

/// Settings of synthesized speech.
#[derive(Debug, Clone, PartialEq, Default)]
pub struct SpeechConfig {
    pub language_code: Option<SpeechLanguageCode>,
}

/// A turn of conversation: its parts and who wrote them.
#[derive(Debug, Clone, PartialEq, Default)]
pub struct Content {
    pub parts: Vec<Part>,
    pub role: Option<Role>,
}

/// One piece of content; usually exactly one field is set.
#[derive(Debug, Clone, PartialEq, Default)]
pub struct Part {
    pub text: Option<String>,
    pub inline_data: Option<Blob>,
    pub function_call: Option<FunctionCall>,
    pub function_response: Option<FunctionResponse>,
    pub executable_code: Option<ExecutableCode>,
}

/// Code that the model generated for execution.
#[derive(Debug, Clone, PartialEq, Default)]
pub struct ExecutableCode {
    pub language: Option<String>,
    pub code: Option<String>,
}

/// A call of a client-side function, requested by the model.
#[derive(Debug, Clone, PartialEq, Default)]
pub struct FunctionCall {
    pub name: String,
    pub args: Option<serde_json::Value>,
    pub id: Option<String>,
}

/// The answer to a function call.
#[derive(Debug, Clone, PartialEq)]
pub struct FunctionResponse {
    pub name: String,
    pub response: serde_json::Value,
    pub id: Option<String>,
}

impl Default for FunctionResponse {
    /// An answer with an empty name, a `null` response and no id.
    fn default() -> (r: Self)
        ensures
            r.name@ == Seq::<char>::empty(),
            crate::json::json_is_null(r.response),
            r.id is None,
    {
        FunctionResponse { name: String::new(), response: json_null(), id: None }
    }
}

/// The server's request to call client-side functions.
#[derive(Debug, Clone, PartialEq, Default)]
pub struct BidiGenerateContentToolCall {
    pub function_calls: Vec<FunctionCall>,
}

/// The client's answers to a tool call.
#[derive(Debug, Clone, PartialEq)]
pub struct BidiGenerateContentToolResponse {
    pub function_responses: Vec<FunctionResponse>,
}

/// Raw bytes with their media type; `data` holds them in base64.
#[derive(Debug, Clone, PartialEq)]
pub struct Blob {
    pub mime_type: String,
    pub data: String,
}

/// Parameters of generation.
///
/// The floating-point parameters are held as the IEEE 754 bit patterns of their
/// `f32` values (`f32::to_bits`); the library passes them through unchanged.
#[derive(Debug, Clone, PartialEq, Default)]
pub struct GenerationConfig {
    pub candidate_count: Option<i32>,
    pub max_output_tokens: Option<i32>,
    pub temperature_bits: Option<u32>,
    pub top_p_bits: Option<u32>,
    pub top_k: Option<i32>,
    pub presence_penalty_bits: Option<u32>,
    pub frequency_penalty_bits: Option<u32>,
    pub response_modalities: Option<Vec<ResponseModality>>,
    pub speech_config: Option<SpeechConfig>,
}

/// A group of function declarations offered to the model.
#[derive(Debug, Clone, PartialEq, Default)]
pub struct Tool {
    pub function_declarations: Vec<FunctionDeclaration>,
}

/// A function the model may call.
#[derive(Debug, Clone, PartialEq, Default)]
pub struct FunctionDeclaration {
    pub name: String,
    pub description: String,
    pub parameters: Option<Schema>,
}

/// The schema of a value; `properties` lists an object's entries by name.
#[derive(Debug, PartialEq, Default)]
pub struct Schema {
    pub schema_type: String,
    pub properties: Option<Vec<(String, Schema)>>,
    pub required: Option<Vec<String>>,
    pub description: Option<String>,
}

impl Schema {
    /// Whether two schemas hold the same texts, entry by entry, down to every
    /// nested schema.
    pub open spec fn same_as(self, other: Schema) -> bool
        decreases self,
    {
        &&& self.schema_type == other.schema_type
        &&& self.description == other.description
        &&& match (self.required, other.required) {
            (None, None) => true,
            (Some(a), Some(b)) => a@ == b@,
            _ => false,
        }
        &&& match (self.properties, other.properties) {
            (None, None) => true,
            (Some(a), Some(b)) => {
                &&& a@.len() == b@.len()
                &&& forall|i: int|
                    0 <= i < a@.len() ==> {
                        &&& (#[trigger] a@[i]).0 == b@[i].0
                        &&& {
                            proof {
                                assert(decreases_to!(self => self.properties));
                                assert(decreases_to!(self.properties => a));
                                assert(decreases_to!(a => a@));
                                assert(decreases_to!(a@ => a@[i]));
                                assert(decreases_to!(a@[i] => a@[i].1));
                            }
                            a@[i].1.same_as(b@[i].1)
                        }
                    }
            },
            _ => false,
        }
    }

    /// Whether no two entries of the object are named alike.
    pub open spec fn properties_named_distinctly(self) -> bool {
        match self.properties {
            Some(ps) => forall|i: int, j: int|
                0 <= i < j < ps@.len() ==> (#[trigger] ps@[i]).0@ != (#[trigger] ps@[j]).0@,
            None => true,
        }
    }

    /// A copy of the schema and of every schema nested in it.
    pub fn copy(&self) -> (r: Schema)
        ensures
            r.same_as(*self),
        decreases self,
    {
        let properties = match &self.properties {
            None => None,
            Some(entries) => {
                let mut copied: Vec<(String, Schema)> = Vec::new();
                let mut i: usize = 0;
                while i < entries.len()
                    invariant
                        i <= entries.len(),
                        self.properties == Some(*entries),
                        copied@.len() == i,
                        forall|j: int|
                            0 <= j < i ==> {
                                &&& (#[trigger] copied@[j]).0 == entries@[j].0
                                &&& copied@[j].1.same_as(entries@[j].1)
                            },
                    decreases entries.len() - i,
                {
                    let entry = &entries[i];
                    proof {
                        let props = self.properties;
                        assert(decreases_to!(self => props));
                        assert(decreases_to!(props => props->0));
                        assert(decreases_to!(*entries => entries@));
                        assert(decreases_to!(entries@ => entries@[i as int]));
                        assert(decreases_to!(entries@[i as int] => entries@[i as int].1));
                    }
                    copied.push((entry.0.clone(), entry.1.copy()));
                    i = i + 1;
                }
                Some(copied)
            },
        };
        let required = match &self.required {
            None => None,
            Some(names) => {
                let mut copied: Vec<String> = Vec::new();
                let mut i: usize = 0;
                while i < names.len()
                    invariant
                        i <= names.len(),
                        copied@ == names@.take(i as int),
                    decreases names.len() - i,
                {
                    copied.push(names[i].clone());
                    assert(names@.take(i + 1) =~= names@.take(i as int).push(names@[i as int]));
                    i = i + 1;
                }
                assert(names@.take(names.len() as int) =~= names@);
                Some(copied)
            },
        };
        Schema {
            schema_type: self.schema_type.clone(),
            properties,
            required,
            description: self.description.clone(),
        }
    }
}

impl Clone for Schema {
    /// A deep copy; see [`Schema::copy`].
    fn clone(&self) -> (r: Self)
        ensures
            r.same_as(*self),
    {
        self.copy()
    }
}

/// The first message of a session: the model and how to use it.
#[derive(Debug, Clone, PartialEq, Default)]
pub struct BidiGenerateContentSetup {
    pub model: String,
    pub generation_config: Option<GenerationConfig>,
    pub system_instruction: Option<Content>,
    pub tools: Option<Vec<Tool>>,
    pub realtime_input_config: Option<RealtimeInputConfig>,
    pub session_resumption: Option<SessionResumptionConfig>,
    pub context_window_compression: Option<ContextWindowCompressionConfig>,
    pub output_audio_transcription: Option<AudioTranscriptionConfig>,
}

/// Asks for a transcription of the model's audio output.
#[derive(Debug, Clone, PartialEq, Default)]
pub struct AudioTranscriptionConfig {}

/// Conversation content sent by the client.
#[derive(Debug, Clone, PartialEq, Default)]
pub struct BidiGenerateContentClientContent {
    pub turns: Option<Vec<Content>>,
    pub turn_complete: Option<bool>,
}

/// Real-time input sent by the client.
#[derive(Debug, Clone, PartialEq, Default)]
pub struct BidiGenerateContentRealtimeInput {
    pub audio: Option<Blob>,
    pub video: Option<Blob>,
    pub text: Option<String>,
    pub activity_start: Option<ActivityStart>,
    pub activity_end: Option<ActivityEnd>,
    pub audio_stream_end: Option<bool>,
}

/// Marks the start of user activity.
#[derive(Debug, Clone, PartialEq, Default)]
pub struct ActivityStart {}

/// Marks the end of user activity.
#[derive(Debug, Clone, PartialEq, Default)]
pub struct ActivityEnd {}

/// A message from the client to the server.
#[derive(Debug, Clone, PartialEq)]
pub enum ClientMessagePayload {
    Setup(BidiGenerateContentSetup),
    ClientContent(BidiGenerateContentClientContent),
    RealtimeInput(BidiGenerateContentRealtimeInput),
    ToolResponse(BidiGenerateContentToolResponse),
}

/// The server's acknowledgement of the setup message.
#[derive(Debug, Clone, PartialEq, Default)]
pub struct BidiGenerateContentSetupComplete {}

/// Content generated by the model.
#[derive(Debug, Clone, PartialEq, Default)]
pub struct BidiGenerateContentServerContent {
    pub generation_complete: bool,
    pub turn_complete: bool,
    pub interrupted: bool,
    pub grounding_metadata: Option<serde_json::Value>,
    pub output_transcription: Option<BidiGenerateContentTranscription>,
    pub model_turn: Option<Content>,
}

/// A transcription of audio.
#[derive(Debug, Clone, PartialEq, Default)]
pub struct BidiGenerateContentTranscription {
    pub text: String,
}

/// The server's withdrawal of earlier function calls.
#[derive(Debug, Clone, PartialEq, Default)]
pub struct BidiGenerateContentToolCallCancellation {
    pub ids: Vec<String>,
}

/// Notice that the server will soon end the connection.
#[derive(Debug, Clone, PartialEq, Default)]
pub struct GoAway {
    pub time_left: Option<String>,
}

/// A handle with which a session can be resumed.
#[derive(Debug, Clone, PartialEq, Default)]
pub struct SessionResumptionUpdate {
    pub new_handle: String,
    pub resumable: bool,
}

/// Token counts of the session.
#[derive(Debug, Clone, PartialEq, Default)]
pub struct UsageMetadata {
    pub prompt_token_count: Option<i32>,
    pub cached_content_token_count: Option<i32>,
    pub response_token_count: Option<i32>,
    pub tool_use_prompt_token_count: Option<i32>,
    pub thoughts_token_count: Option<i32>,
    pub total_token_count: Option<i32>,
}

/// A message from the server; any combination of its fields may be present.
#[derive(Debug, Clone, PartialEq, Default)]
pub struct ServerMessage {
    pub usage_metadata: Option<UsageMetadata>,
    pub setup_complete: Option<BidiGenerateContentSetupComplete>,
    pub server_content: Option<BidiGenerateContentServerContent>,
    pub tool_call: Option<BidiGenerateContentToolCall>,
    pub tool_call_cancellation: Option<BidiGenerateContentToolCallCancellation>,
    pub go_away: Option<GoAway>,
    pub session_resumption_update: Option<SessionResumptionUpdate>,
}

/// How real-time input is handled.
#[derive(Debug, Clone, PartialEq, Default)]
pub struct RealtimeInputConfig {
    pub automatic_activity_detection: Option<AutomaticActivityDetection>,
    pub activity_handling: Option<ActivityHandling>,
    pub turn_coverage: Option<TurnCoverage>,
}

/// Settings of the server's voice activity detection.
#[derive(Debug, Clone, PartialEq, Default)]
pub struct AutomaticActivityDetection {
    pub disabled: Option<bool>,
    pub start_of_speech_sensitivity: Option<StartSensitivity>,
    pub prefix_padding_ms: Option<i32>,
    pub end_of_speech_sensitivity: Option<EndSensitivity>,
    pub silence_duration_ms: Option<i32>,
}

/// Asks for session resumption, from a handle if one is given.
#[derive(Debug, Clone, PartialEq, Default)]
pub struct SessionResumptionConfig {
    pub handle: Option<String>,
}

/// Settings of context window compression.
#[derive(Debug, Clone, PartialEq, Default)]
pub struct ContextWindowCompressionConfig {
    pub sliding_window: Option<SlidingWindow>,
    pub trigger_tokens: i64,
}

/// Compression by a sliding window.
#[derive(Debug, Clone, PartialEq, Default)]
pub struct SlidingWindow {
    pub target_tokens: i64,
}

} // verus!
