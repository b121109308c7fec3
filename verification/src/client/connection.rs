//! The decisions of the connection task: the URL it connects to, how it reads
//! the frames it receives, when the setup has succeeded, what each event of the
//! listening loop leads to, and how a server message is dispatched to the
//! handlers and answered.
use vstd::prelude::*;
use crate::client::handlers::{ServerContentContext, UsageMetadataContext};
use crate::error::GeminiError;
use crate::json::error_value;
use crate::text::same_text;
use crate::types::{
    BidiGenerateContentToolResponse, ClientMessagePayload, FunctionCall, FunctionResponse,
    ServerMessage,
};

verus! {

/// The WebSocket endpoint of the Live API.
pub const GEMINI_WS_ENDPOINT: &'static str = "wss://generativelanguage.googleapis.com/ws/google.ai.generativelanguage.v1beta.GenerativeService.BidiGenerateContent";

/// The URL of the endpoint with the API key as its query.
pub open spec fn endpoint_url_text(api_key: Seq<char>) -> Seq<char> {
    GEMINI_WS_ENDPOINT@ + "?key="@ + api_key
}

/// The URL carries the whole key, whatever its length: it is the endpoint, then
/// `?key=`, then every character of the key, and nothing after it; so two
/// different keys never give the same URL.
pub proof fn lemma_endpoint_url_carries_key(api_key: Seq<char>, other_key: Seq<char>)
    ensures
        endpoint_url_text(api_key).len() == GEMINI_WS_ENDPOINT@.len() + 5 + api_key.len(),
        endpoint_url_text(api_key).take(GEMINI_WS_ENDPOINT@.len() as int) == GEMINI_WS_ENDPOINT@,
        endpoint_url_text(api_key).subrange(
            GEMINI_WS_ENDPOINT@.len() as int,
            (GEMINI_WS_ENDPOINT@.len() + 5) as int,
        ) == "?key="@,
        endpoint_url_text(api_key).skip((GEMINI_WS_ENDPOINT@.len() + 5) as int) == api_key,
        endpoint_url_text(api_key) == endpoint_url_text(other_key) ==> api_key == other_key,
{
    reveal_strlit("?key=");
    let e = GEMINI_WS_ENDPOINT@;
    let u = endpoint_url_text(api_key);
    assert(u.take(e.len() as int) =~= e);
    assert(u.subrange(e.len() as int, (e.len() + 5) as int) =~= "?key="@);
    assert(u.skip((e.len() + 5) as int) =~= api_key);
    assert(endpoint_url_text(other_key).skip((e.len() + 5) as int) =~= other_key);
}

/// What `url::Url::parse` makes of a text: `None` when it parses, and otherwise
/// the text of its `ParseError`.
pub uninterp spec fn url_parse_error(text: Seq<char>) -> Option<Seq<char>>;

/// `url::Url::parse(text)`, reduced to whether it succeeds and, when it does
/// not, the `Display` text of the error.
#[verifier::external_body]
fn check_url(text: &str) -> (r: Result<(), String>)
    ensures
        match r {
            Ok(_) => url_parse_error(text@) is None,
            Err(e) => url_parse_error(text@) == Some(e@),
        },
{
    match url::Url::parse(text) {
        Ok(_) => Ok(()),
        Err(e) => Err(e.to_string()),
    }
}

/// The URL to connect to with `api_key`: refused with `ApiError("Invalid URL:
/// ...")` when it does not parse as a URL.
pub fn websocket_url(api_key: &str) -> (r: Result<String, GeminiError>)
    ensures
        r is Ok == (url_parse_error(endpoint_url_text(api_key@)) is None),
        r matches Ok(u) ==> u@ == endpoint_url_text(api_key@),
        r matches Ok(u) ==> u@.skip((GEMINI_WS_ENDPOINT@.len() + 5) as int) == api_key@,
        r matches Err(e) ==> e matches GeminiError::ApiError(m) && m@ == "Invalid URL: "@
            + url_parse_error(endpoint_url_text(api_key@))->0,
{
    let mut url = String::from_str(GEMINI_WS_ENDPOINT);
    url.append("?key=");
    url.append(api_key);
    proof {
        lemma_endpoint_url_carries_key(api_key@, api_key@);
    }
    match check_url(url.as_str()) {
        Ok(_) => Ok(url),
        Err(detail) => {
            let mut message = String::from_str("Invalid URL: ");
            message.append(detail.as_str());
            Err(GeminiError::ApiError(message))
        },
    }
}

/// `String::from_utf8(bytes).ok()`: the text when the bytes are valid UTF-8.
#[verifier::external_body]
fn utf8_text(bytes: Vec<u8>) -> (r: Option<String>)
    ensures
        r is Some == vstd::utf8::valid_utf8(bytes@),
        r matches Some(s) ==> s@ == vstd::utf8::decode_utf8(bytes@),
{
    String::from_utf8(bytes).ok()
}

/// A WebSocket frame as it arrives; the payloads of control frames play no part.
#[derive(Debug, Clone, PartialEq)]
pub enum IncomingFrame {
    Text(String),
    Binary(Vec<u8>),
    Ping,
    Pong,
    Frame,
    Close,
}

/// What a frame means to the client.
#[derive(Debug, Clone, PartialEq)]
pub enum FrameText {
    /// A text to be read as a server message.
    Text(String),
    /// A binary frame that is not UTF-8 text.
    Undecodable,
    /// A ping, a pong or a raw frame.
    Control,
    /// The server closes the connection.
    Close,
}

/// Reads a frame: a text frame is its text, a binary frame is its text when it
/// is valid UTF-8.
pub fn frame_text(frame: IncomingFrame) -> (r: FrameText)
    ensures
        match frame {
            IncomingFrame::Text(t) => r == FrameText::Text(t),
            IncomingFrame::Binary(b) => if vstd::utf8::valid_utf8(b@) {
                r matches FrameText::Text(t) && t@ == vstd::utf8::decode_utf8(b@)
            } else {
                r is Undecodable
            },
            IncomingFrame::Close => r is Close,
            _ => r is Control,
        },
{
    match frame {
        IncomingFrame::Text(t) => FrameText::Text(t),
        IncomingFrame::Binary(b) => match utf8_text(b) {
            Some(t) => FrameText::Text(t),
            None => FrameText::Undecodable,
        },
        IncomingFrame::Ping => FrameText::Control,
        IncomingFrame::Pong => FrameText::Control,
        IncomingFrame::Frame => FrameText::Control,
        IncomingFrame::Close => FrameText::Close,
    }
}

/// A received frame after its text, if any, was read as a server message.
#[derive(Debug, Clone, PartialEq)]
pub enum Inbound {
    /// A server message.
    Message(ServerMessage),
    /// A text that is not a server message, or a binary frame that is not text.
    Unreadable,
    /// A ping, a pong or a raw frame.
    Control,
    /// The server closes the connection.
    Close,
}

/// Whether the setup succeeded, judged by the first frame after the setup
/// message: it must be a server message that acknowledges the setup. When the
/// stream ends first, the connection is closed; when reading fails, that is the
/// error.
pub fn setup_outcome(
    first: Option<Result<Inbound, tokio_tungstenite::tungstenite::Error>>,
) -> (r: Result<(), GeminiError>)
    ensures
        match first {
            None => r matches Err(e) && e is ConnectionClosed,
            Some(Err(w)) => r == Err::<(), GeminiError>(GeminiError::WebSocketError(w)),
            Some(Ok(Inbound::Message(m))) => if m.setup_complete is Some {
                r is Ok
            } else {
                r matches Err(e) && e is UnexpectedMessage
            },
            Some(Ok(_)) => r matches Err(e) && e is UnexpectedMessage,
        },
{
    match first {
        None => Err(GeminiError::ConnectionClosed),
        Some(Err(w)) => Err(GeminiError::WebSocketError(w)),
        Some(Ok(Inbound::Message(m))) => if m.setup_complete.is_some() {
            Ok(())
        } else {
            Err(GeminiError::UnexpectedMessage)
        },
        Some(Ok(_)) => Err(GeminiError::UnexpectedMessage),
    }
}

/// What happens next in the listening loop.
pub enum ListenEvent {
    /// The client asked the connection to shut down.
    Shutdown,
    /// The client's message channel yielded a message, or `None` once it is closed.
    Outgoing(Option<ClientMessagePayload>),
    /// The WebSocket yielded a frame, a read error, or `None` once it has ended.
    Incoming(Option<Result<Inbound, tokio_tungstenite::tungstenite::Error>>),
}

/// What the connection task does about an event.
pub enum ListenAction {
    /// Send a Close frame, close the WebSocket and end successfully.
    CloseAndEnd,
    /// Send the message to the server.
    Transmit(ClientMessagePayload),
    /// Hand the server message to the handlers.
    Dispatch(ServerMessage),
    /// Keep listening.
    Continue,
    /// Close the WebSocket and end successfully.
    Stop,
    /// End successfully; the server has already closed the connection.
    End,
    /// End with the error.
    Fail(GeminiError),
}

/// What the listening loop remembers between events: whether the client's
/// message channel is still open. Once it has closed, the loop no longer waits
/// on it and listens to the WebSocket alone until the WebSocket closes.
#[derive(Debug, Clone, Copy, PartialEq)]
pub struct ListenState {
    pub outgoing_open: bool,
}

impl ListenState {
    /// The state when listening starts: the message channel is open.
    pub fn new() -> (r: Self)
        ensures
            r.outgoing_open,
    {
        ListenState { outgoing_open: true }
    }
}

/// Decides what an event of the listening loop leads to, and notes when the
/// client's message channel has closed.
pub fn listen_step(state: &mut ListenState, event: ListenEvent) -> (r: ListenAction)
    ensures
        final(state).outgoing_open == (old(state).outgoing_open && !(event matches ListenEvent::Outgoing(None))),
        match event {
            ListenEvent::Shutdown => r is CloseAndEnd,
            ListenEvent::Outgoing(Some(p)) => r == ListenAction::Transmit(p),
            ListenEvent::Outgoing(None) => r is Continue,
            ListenEvent::Incoming(None) => r is End,
            ListenEvent::Incoming(Some(Err(w))) => r == ListenAction::Fail(
                GeminiError::WebSocketError(w),
            ),
            ListenEvent::Incoming(Some(Ok(Inbound::Message(m)))) => r == ListenAction::Dispatch(m),
            ListenEvent::Incoming(Some(Ok(Inbound::Close))) => r is Stop,
            ListenEvent::Incoming(Some(Ok(_))) => r is Continue,
        },
{
    match event {
        ListenEvent::Shutdown => ListenAction::CloseAndEnd,
        ListenEvent::Outgoing(Some(p)) => ListenAction::Transmit(p),
        ListenEvent::Outgoing(None) => {
            state.outgoing_open = false;
            ListenAction::Continue
        },
        ListenEvent::Incoming(None) => ListenAction::End,
        ListenEvent::Incoming(Some(Err(w))) => ListenAction::Fail(GeminiError::WebSocketError(w)),
        ListenEvent::Incoming(Some(Ok(Inbound::Message(m)))) => ListenAction::Dispatch(m),
        ListenEvent::Incoming(Some(Ok(Inbound::Close))) => ListenAction::Stop,
        ListenEvent::Incoming(Some(Ok(_))) => ListenAction::Continue,
    }
}

/// A function call of the server, and whether a handler is registered for it.
#[derive(Debug, Clone, PartialEq)]
pub struct ToolInvocation {
    pub id: Option<String>,
    pub name: String,
    pub args: Option<serde_json::Value>,
    pub handled: bool,
}

/// The handling of a server message, in the order in which it happens: the
/// server content goes to its handler, the function calls to theirs and their
/// answers back to the server, and the token counts to their handler.
#[derive(Debug, Clone, PartialEq)]
pub struct DispatchPlan {
    /// The server content, when there is content and a handler for it.
    pub server_content: Option<ServerContentContext>,
    /// Whether the message completes the model's turn.
    pub turn_complete: bool,
    /// One invocation per function call of the message, in order.
    pub tool_calls: Vec<ToolInvocation>,
    /// The token counts, when there are counts and a handler for them.
    pub usage: Option<UsageMetadataContext>,
}

/// The invocation of a function call, given the names of the registered tools.
pub open spec fn invocation_of(call: FunctionCall, tool_names: Seq<Seq<char>>) -> ToolInvocation {
    ToolInvocation {
        id: call.id,
        name: call.name,
        args: call.args,
        handled: tool_names.contains(call.name@),
    }
}

/// The invocations of the function calls of a message.
pub open spec fn invocations_of(message: ServerMessage, tool_names: Seq<Seq<char>>) -> Seq<
    ToolInvocation,
> {
    match message.tool_call {
        Some(tc) => tc.function_calls@.map_values(|c: FunctionCall| invocation_of(c, tool_names)),
        None => Seq::empty(),
    }
}

/// The function calls of a message, in order; none when it carries no tool call.
pub open spec fn function_calls_of(message: ServerMessage) -> Seq<FunctionCall> {
    match message.tool_call {
        Some(tc) => tc.function_calls@,
        None => Seq::empty(),
    }
}

/// There is one invocation per function call of a message, in order; each keeps
/// the call's id, name and arguments, and each call, at whatever position, is
/// handled exactly when a tool of its name is registered.
pub proof fn lemma_invocations_follow_calls(message: ServerMessage, tool_names: Seq<Seq<char>>)
    ensures
        invocations_of(message, tool_names).len() == function_calls_of(message).len(),
        forall|i: int|
            0 <= i < function_calls_of(message).len() ==> {
                let call = #[trigger] function_calls_of(message)[i];
                let invocation = invocations_of(message, tool_names)[i];
                &&& invocation.handled == tool_names.contains(call.name@)
                &&& invocation.id == call.id
                &&& invocation.name == call.name
                &&& invocation.args == call.args
            },
{
}

/// Whether a tool of the given name is registered.
fn is_registered(tool_names: &Vec<String>, name: &String) -> (r: bool)
    ensures
        r == tool_names@.map_values(|n: String| n@).contains(name@),
{
    let ghost names = tool_names@.map_values(|n: String| n@);
    let mut j: usize = 0;
    while j < tool_names.len()
        invariant
            j <= tool_names.len(),
            names == tool_names@.map_values(|n: String| n@),
            forall|k: int| 0 <= k < j ==> names[k] != name@,
        decreases tool_names.len() - j,
    {
        if same_text(tool_names[j].as_str(), name.as_str()) {
            assert(names[j as int] == name@);
            return true;
        }
        j = j + 1;
    }
    false
}

/// Plans the handling of a server message, given which handlers are registered.
pub fn plan_dispatch(
    message: ServerMessage,
    has_server_content_handler: bool,
    has_usage_handler: bool,
    tool_names: &Vec<String>,
) -> (r: DispatchPlan)
    ensures
        r.server_content == (if has_server_content_handler && message.server_content is Some {
            Some(ServerContentContext { content: message.server_content->0 })
        } else {
            None
        }),
        r.turn_complete == (message.server_content matches Some(c) && c.turn_complete),
        r.tool_calls@ == invocations_of(message, tool_names@.map_values(|n: String| n@)),
        r.tool_calls@.len() == function_calls_of(message).len(),
        forall|i: int|
            0 <= i < r.tool_calls@.len() ==> (#[trigger] r.tool_calls@[i]).handled
                == tool_names@.map_values(|n: String| n@).contains(function_calls_of(message)[i].name@),
        r.usage == (if has_usage_handler && message.usage_metadata is Some {
            Some(UsageMetadataContext { metadata: message.usage_metadata->0 })
        } else {
            None
        }),
{
    let ghost names = tool_names@.map_values(|n: String| n@);
    let ghost m = message;
    let ServerMessage { usage_metadata, server_content, tool_call, .. } = message;
    let mut turn_complete = false;
    let content_context = match server_content {
        Some(content) => {
            turn_complete = content.turn_complete;
            if has_server_content_handler {
                Some(ServerContentContext { content })
            } else {
                None
            }
        },
        None => None,
    };
    let mut invocations: Vec<ToolInvocation> = Vec::new();
    match tool_call {
        Some(tc) => {
            let calls = tc.function_calls;
            let ghost all = calls@;
            assert(all.skip(0) =~= all);
            assert(invocations@ =~= all.take(0).map_values(|c: FunctionCall| invocation_of(c, names)));
            let mut rest = calls;
            let mut i: usize = 0;
            let n = rest.len();
            while rest.len() > 0
                invariant
                    n == all.len(),
                    rest.len() + i == n,
                    rest@ == all.skip(i as int),
                    invocations@ == all.take(i as int).map_values(
                        |c: FunctionCall| invocation_of(c, names),
                    ),
                    names == tool_names@.map_values(|n: String| n@),
                decreases rest.len(),
            {
                let call = rest.remove(0);
                assert(call == all[i as int]);
                assert(rest@ =~= all.skip(i + 1));
                let handled = is_registered(tool_names, &call.name);
                let FunctionCall { name, args, id } = call;
                invocations.push(ToolInvocation { id, name, args, handled });
                assert(all.take(i + 1) =~= all.take(i as int).push(all[i as int]));
                assert(invocations@ =~= all.take(i + 1).map_values(
                    |c: FunctionCall| invocation_of(c, names),
                ));
                i = i + 1;
            }
            assert(all.take(n as int) =~= all);
        },
        None => {
            assert(invocations@ =~= invocations_of(m, names));
        },
    }
    let usage = match usage_metadata {
        Some(metadata) => if has_usage_handler {
            Some(UsageMetadataContext { metadata })
        } else {
            None
        },
        None => None,
    };
    proof {
        lemma_invocations_follow_calls(m, names);
    }
    DispatchPlan { server_content: content_context, turn_complete, tool_calls: invocations, usage }
}

/// The text of the answer to a call that no handler takes.
pub open spec fn not_implemented_text() -> Seq<char> {
    "Function not implemented by client."@
}

/// The JSON sent back for a call: the handler's value, `{"error": e}` for the
/// handler's error `e`, and `{"error": "Function not implemented by client."}`
/// when no handler ran.
pub open spec fn response_value(
    result: Option<Result<serde_json::Value, String>>,
) -> serde_json::Value {
    match result {
        Some(Ok(v)) => v,
        Some(Err(e)) => crate::json::error_object(e@),
        None => crate::json::error_object(not_implemented_text()),
    }
}

/// The answer to an invocation.
pub open spec fn answer_of(
    invocation: ToolInvocation,
    result: Option<Result<serde_json::Value, String>>,
) -> FunctionResponse {
    FunctionResponse { name: invocation.name, response: response_value(result), id: invocation.id }
}

/// Answers an invocation with the result of its handler, or with `None` when no
/// handler ran.
pub fn tool_response(
    invocation: ToolInvocation,
    result: Option<Result<serde_json::Value, String>>,
) -> (r: FunctionResponse)
    ensures
        r == answer_of(invocation, result),
{
    let response = match result {
        Some(Ok(v)) => v,
        Some(Err(e)) => error_value(e),
        None => error_value(String::from_str("Function not implemented by client.")),
    };
    FunctionResponse { name: invocation.name, response, id: invocation.id }
}

/// The message that carries the answers back to the server; nothing is sent
/// when there are no answers.
pub fn tool_response_message(responses: Vec<FunctionResponse>) -> (r: Option<ClientMessagePayload>)
    ensures
        r is None == (responses@.len() == 0),
        r matches Some(p) ==> p == ClientMessagePayload::ToolResponse(
            BidiGenerateContentToolResponse { function_responses: responses },
        ),
{
    if responses.len() == 0 {
        None
    } else {
        Some(
            ClientMessagePayload::ToolResponse(
                BidiGenerateContentToolResponse { function_responses: responses },
            ),
        )
    }
}

/// Every function call of a server message is answered exactly once, in the
/// order of the calls, under the call's id and name; a call for which no tool is
/// registered gets the error "Function not implemented by client.".
pub proof fn lemma_every_call_answered(
    message: ServerMessage,
    tool_names: Seq<Seq<char>>,
    results: Seq<Option<Result<serde_json::Value, String>>>,
)
    requires
        results.len() == invocations_of(message, tool_names).len(),
        forall|i: int|
            0 <= i < results.len() && !(#[trigger] invocations_of(message, tool_names)[i]).handled
                ==> results[i] is None,
    ensures
        ({
            let calls = match message.tool_call {
                Some(tc) => tc.function_calls@,
                None => Seq::empty(),
            };
            let invocations = invocations_of(message, tool_names);
            let answers = Seq::new(
                results.len(),
                |i: int| answer_of(invocations[i], results[i]),
            );
            &&& answers.len() == calls.len()
            &&& forall|i: int|
                0 <= i < calls.len() ==> {
                    &&& (#[trigger] answers[i]).id == calls[i].id
                    &&& answers[i].name == calls[i].name
                    &&& !tool_names.contains(calls[i].name@) ==> answers[i].response
                        == crate::json::error_object(not_implemented_text())
                }
        }),
{
}

} // verus!
