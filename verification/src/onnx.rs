//! The inference engine around the opaque tensor runtime.

pub mod onnx_engine;

pub use onnx_engine::OnnxConfig;
pub use onnx_engine::OnnxEmbeddingEngine;
pub use onnx_engine::TensorBackend;
pub use onnx_engine::TensorOutput;
