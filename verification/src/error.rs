//! The error type of the client.
use vstd::prelude::*;

verus! {

#[verifier::external_type_specification]
#[verifier::external_body]
pub struct ExWebSocketError(tokio_tungstenite::tungstenite::Error);

#[verifier::external_type_specification]
#[verifier::external_body]
pub struct ExJsonError(serde_json::Error);

#[verifier::external_type_specification]
#[verifier::external_body]
pub struct ExIoError(std::io::Error);

/// Everything that can go wrong while talking to the Live API.
#[derive(Debug)]
pub enum GeminiError {
    /// The WebSocket transport failed.
    WebSocketError(tokio_tungstenite::tungstenite::Error),
    /// A message could not be turned into JSON or back.
    SerdeError(serde_json::Error),
    /// An I/O operation failed.
    IoError(std::io::Error),
    /// The API, or the request made to it, was not acceptable.
    ApiError(String),
    /// The connection is not established, or was closed by the client.
    NotReady,
    /// A message from the server was not in the expected format.
    UnexpectedMessage,
    /// The connection was closed.
    ConnectionClosed,
    /// No handler was registered for a function the server called.
    FunctionHandlerNotFound(String),
    /// A message could not be handed to the connection task.
    SendError,
    /// No API key was given.
    MissingApiKey,
}

} // verus!
