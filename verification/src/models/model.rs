//! Model metadata and the capability interface every embedding backend
//! offers.

use crate::models::config::ModelConfig;
use crate::models::Embedding;
use crate::models::EmbeddingResult;
use vstd::prelude::*;

verus! {

/// Information about a model, derived from its configuration.
#[derive(Debug)]
pub struct ModelInfo {
    /// Model name.
    pub name: String,
    /// Model description.
    pub description: String,
    /// Model version.
    pub version: String,
    /// Embedding dimension.
    pub dimension: usize,
    /// Maximum sequence length.
    pub max_sequence_length: usize,
    /// Pooling mode.
    pub pooling_mode: String,
    /// Whether the model uses GPU.
    pub uses_gpu: bool,
    /// Model file path.
    pub model_path: String,
    /// Tokenizer path.
    pub tokenizer_path: String,
}

/// The mathematical content of a [`ModelInfo`]: every text as its characters.
pub struct ModelInfoView {
    pub name: Seq<char>,
    pub description: Seq<char>,
    pub version: Seq<char>,
    pub dimension: usize,
    pub max_sequence_length: usize,
    pub pooling_mode: Seq<char>,
    pub uses_gpu: bool,
    pub model_path: Seq<char>,
    pub tokenizer_path: Seq<char>,
}

impl View for ModelInfo {
    type V = ModelInfoView;

    open spec fn view(&self) -> ModelInfoView {
        ModelInfoView {
            name: self.name@,
            description: self.description@,
            version: self.version@,
            dimension: self.dimension,
            max_sequence_length: self.max_sequence_length,
            pooling_mode: self.pooling_mode@,
            uses_gpu: self.uses_gpu,
            model_path: self.model_path@,
            tokenizer_path: self.tokenizer_path@,
        }
    }
}

impl Clone for ModelInfo {
    /// A clone carries the same information.
    fn clone(&self) -> (r: ModelInfo)
        ensures
            r@ == self@,
    {
        ModelInfo {
            name: self.name.clone(),
            description: self.description.clone(),
            version: self.version.clone(),
            dimension: self.dimension,
            max_sequence_length: self.max_sequence_length,
            pooling_mode: self.pooling_mode.clone(),
            uses_gpu: self.uses_gpu,
            model_path: self.model_path.clone(),
            tokenizer_path: self.tokenizer_path.clone(),
        }
    }
}

/// The information a configuration declares for its model.
pub open spec fn spec_info_of_config(config: ModelConfig) -> ModelInfoView {
    ModelInfoView {
        name: config.name@,
        description: config.description@,
        version: config.version@,
        dimension: config.embedding_dimension,
        max_sequence_length: config.max_sequence_length,
        pooling_mode: config.pooling_mode@,
        uses_gpu: config.use_gpu,
        model_path: config.model_path@,
        tokenizer_path: config.tokenizer_path@,
    }
}

impl ModelInfo {
    /// Derives the externally visible information from a model configuration.
    pub fn from_model_config(config: &ModelConfig) -> (r: ModelInfo)
        ensures
            r@ == spec_info_of_config(*config),
    {
        ModelInfo {
            name: config.name.clone(),
            description: config.description.clone(),
            version: config.version.clone(),
            dimension: config.embedding_dimension,
            max_sequence_length: config.max_sequence_length,
            pooling_mode: config.pooling_mode.clone(),
            uses_gpu: config.use_gpu,
            model_path: config.model_path.clone(),
            tokenizer_path: config.tokenizer_path.clone(),
        }
    }
}

/// Core embedding model capability.  The service treats a backend as opaque:
/// nothing is assumed of what these methods compute, and everything the
/// registry and manager guarantee holds for every implementation.
pub trait EmbeddingModel {
    /// Get model information.
    fn info(&self) -> &ModelInfo;

    /// Initialize the model.
    fn initialize(&mut self) -> EmbeddingResult<()>;

    /// Check whether the model is ready for inference.
    fn is_ready(&self) -> bool;

    /// Generate an embedding for a single text.
    fn embed_text(&self, text: &str) -> EmbeddingResult<Embedding>;

    /// Generate embeddings for a batch of texts.
    fn embed_batch(&self, texts: &[String]) -> EmbeddingResult<Vec<Embedding>>;

    /// The embedding dimension the model reports.
    fn dimension(&self) -> usize {
        self.info().dimension
    }

    /// Whether the model reports GPU support.
    fn supports_gpu(&self) -> bool {
        self.info().uses_gpu
    }

    /// Shut the model down and release its resources.
    fn shutdown(&mut self) -> EmbeddingResult<()>;
}

} // verus!
