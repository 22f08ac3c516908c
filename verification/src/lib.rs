//! Verified core of an embedding-generation service.
//!
//! The crate covers the serving engine: the binary wire protocol, the
//! MessagePack payload codec, the model registry and manager that govern the
//! model lifecycle, the inference pipeline around the opaque tensor runtime,
//! and the admission control of the connection server.

pub mod models;
pub mod onnx;
pub mod protocol;
pub mod server;

pub use models::Embedding;
pub use models::EmbeddingError;
pub use models::EmbeddingModelsManager;
pub use protocol::EmbedRequest;
pub use protocol::EmbedResponse;
pub use server::ServerConfig;
