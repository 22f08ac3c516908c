//! Shared types of the model layer: the embedding carrier and the error
//! taxonomy of the service.

pub mod config;
pub mod manager;
pub mod model;
pub mod registry;

use vstd::prelude::*;

pub use config::EmbeddingModelsConfig;
pub use config::ModelConfig;
pub use manager::EmbeddingModelsManager;
pub use model::EmbeddingModel;
pub use model::ModelInfo;
pub use registry::ModelRegistry;

verus! {

/// One embedding component is a 32-bit float carried as its raw bit pattern,
/// so an embedding is a vector of such patterns.  The numeric interpretation
/// lives outside the verified core; the core moves, frames and stores the
/// components without reinterpreting them.
pub type Embedding = Vec<u32>;

/// Errors of the model layer and of the inference pipeline.
#[derive(Debug, Clone, PartialEq, Eq)]
pub enum EmbeddingError {
    /// The configuration is rejected (fatal at startup).
    ConfigError { message: String },
    /// A model name resolved to no loaded or configured model.
    ModelNotFound { model_name: String },
    /// Loading one model failed; scoped to that model.
    ModelLoadError { model_name: String, error: String },
    /// Loading failed before a model name was attached.
    ModelLoadFailed { error: String },
    /// Inference through a named model failed.
    InferenceError { model_name: String, error: String },
    /// The embedding pipeline itself failed (tokenization, tensor shapes,
    /// pooling or normalization edge cases).
    EmbeddingFailed { error: String },
    /// The caller handed an input the service rejects.
    InvalidInput { message: String },
    /// An I/O failure, carried as text.
    IoError { error: String },
    /// A configuration source could not be parsed, carried as text.
    TomlError { error: String },
}

impl EmbeddingError {
    /// A short label naming the error variant.
    pub fn kind(&self) -> (r: &'static str)
        ensures
            r@ == self.spec_kind(),
    {
        let r: &'static str = match self {
            EmbeddingError::ConfigError { .. } => "configuration error",
            EmbeddingError::ModelNotFound { .. } => "model not found",
            EmbeddingError::ModelLoadError { .. } => "model loading failed",
            EmbeddingError::ModelLoadFailed { .. } => "model load failed",
            EmbeddingError::InferenceError { .. } => "inference failed",
            EmbeddingError::EmbeddingFailed { .. } => "embedding failed",
            EmbeddingError::InvalidInput { .. } => "invalid input",
            EmbeddingError::IoError { .. } => "io error",
            EmbeddingError::TomlError { .. } => "toml parsing error",
        };
        r
    }

    /// The label `kind` returns, as a sequence of characters.
    pub open spec fn spec_kind(&self) -> Seq<char> {
        match self {
            EmbeddingError::ConfigError { .. } => "configuration error"@,
            EmbeddingError::ModelNotFound { .. } => "model not found"@,
            EmbeddingError::ModelLoadError { .. } => "model loading failed"@,
            EmbeddingError::ModelLoadFailed { .. } => "model load failed"@,
            EmbeddingError::InferenceError { .. } => "inference failed"@,
            EmbeddingError::EmbeddingFailed { .. } => "embedding failed"@,
            EmbeddingError::InvalidInput { .. } => "invalid input"@,
            EmbeddingError::IoError { .. } => "io error"@,
            EmbeddingError::TomlError { .. } => "toml parsing error"@,
        }
    }
}

/// Result type for embedding models operations.
pub type EmbeddingResult<T> = Result<T, EmbeddingError>;

} // verus!
