//! What the client hands to the application's event handlers.
use vstd::prelude::*;
use crate::types::{BidiGenerateContentServerContent, UsageMetadata};

verus! {

/// The content of a server message, handed to the server-content handler.
#[derive(Debug, Clone, PartialEq)]
pub struct ServerContentContext {
    pub content: BidiGenerateContentServerContent,
}

/// The token counts of a server message, handed to the usage handler.
#[derive(Debug, Clone, PartialEq)]
pub struct UsageMetadataContext {
    pub metadata: UsageMetadata,
}

} // verus!
