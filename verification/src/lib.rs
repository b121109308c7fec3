pub mod client;
pub mod codes;
pub mod encoding;
pub mod error;
pub mod json;
pub mod text;
pub mod tool;
pub mod types;

pub use client::{GeminiLiveClient, GeminiLiveClientBuilder, ServerContentContext, UsageMetadataContext};
pub use error::GeminiError;
pub use types::{
    Content, FunctionDeclaration, GenerationConfig, Part, ResponseModality, Role, Schema,
    SpeechConfig, SpeechLanguageCode,
};
