pub mod builder;
pub mod connection;
pub mod handle;
pub mod handlers;

pub use builder::GeminiLiveClientBuilder;
pub use handle::GeminiLiveClient;
pub use handlers::{ServerContentContext, UsageMetadataContext};
