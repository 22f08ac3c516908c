//! Tests of the inference pipeline around a scripted backend and a real
//! tokenizer.

use embedding_server::models::EmbeddingError;
use embedding_server::onnx::onnx_engine::build_model_inputs;
use embedding_server::onnx::onnx_engine::mean_pooling;
use embedding_server::onnx::onnx_engine::normalize_embedding;
use embedding_server::onnx::onnx_engine::valid_token_count;
use embedding_server::onnx::onnx_engine::ModelInputs;
use embedding_server::onnx::onnx_engine::OnnxConfig;
use embedding_server::onnx::onnx_engine::OnnxEmbeddingEngine;
use embedding_server::onnx::onnx_engine::TensorBackend;
use embedding_server::onnx::onnx_engine::TensorOutput;

/// A scripted runtime: per token the hidden vector is `[first_id, 1]`, so
/// the pipeline's output is a deterministic function of the input text.
struct ScriptedBackend;

impl TensorBackend for ScriptedBackend {
    fn run(&mut self, inputs: &ModelInputs) -> Result<TensorOutput, String> {
        let seq_len = inputs.attention_mask.len();
        let first_id = *inputs.input_ids.first().unwrap_or(&0) as f32;
        let mut data = Vec::new();
        for _ in 0..seq_len {
            data.push(first_id.to_bits());
            data.push(1.0f32.to_bits());
        }
        Ok(TensorOutput { shape: vec![1, seq_len, 2], data })
    }

    fn pool_mean(&self, output: &TensorOutput, attention_mask: &Vec<u32>) -> Vec<u32> {
        let hidden = output.shape[2];
        let valid = attention_mask.iter().filter(|&&m| m == 1).count() as f32;
        let mut pooled = vec![0.0f32; hidden];
        for (pos, &m) in attention_mask.iter().enumerate() {
            if m == 1 {
                for h in 0..hidden {
                    pooled[h] += f32::from_bits(output.data[pos * hidden + h]);
                }
            }
        }
        pooled.iter().map(|v| (v / valid).to_bits()).collect()
    }

    fn normalize(&self, embedding: &Vec<u32>) -> Option<Vec<u32>> {
        let norm: f32 = embedding
            .iter()
            .map(|&b| {
                let v = f32::from_bits(b);
                v * v
            })
            .sum::<f32>()
            .sqrt();
        if norm == 0.0 {
            None
        } else {
            Some(embedding.iter().map(|&b| (f32::from_bits(b) / norm).to_bits()).collect())
        }
    }

    fn input_names(&self) -> Vec<String> {
        vec!["input_ids".to_string(), "attention_mask".to_string(), "token_type_ids".to_string()]
    }

    fn output_names(&self) -> Vec<String> {
        vec!["last_hidden_state".to_string()]
    }
}

const TOKENIZER_JSON: &str = r#"{
  "version": "1.0",
  "model": {
    "type": "WordLevel",
    "vocab": {"[UNK]": 0, "hello": 1, "world": 2, "alpha": 3, "beta": 4},
    "unk_token": "[UNK]"
  },
  "pre_tokenizer": {"type": "Whitespace"}
}"#;

fn engine() -> OnnxEmbeddingEngine<ScriptedBackend> {
    OnnxEmbeddingEngine::new(TOKENIZER_JSON.as_bytes(), ScriptedBackend, &OnnxConfig::default())
        .unwrap()
}

#[test]
fn empty_batch_is_invalid_input() {
    let mut engine = engine();
    match engine.embed_texts(&Vec::new()) {
        Err(EmbeddingError::InvalidInput { .. }) => {}
        _ => panic!("expected an invalid-input failure"),
    }
}

#[test]
fn batch_output_corresponds_to_inputs_in_order() {
    let mut engine = engine();
    let texts = vec!["hello".to_string(), "world".to_string(), "alpha beta".to_string()];
    let embeddings = engine.embed_texts(&texts).unwrap();
    assert_eq!(embeddings.len(), 3);

    // The scripted runtime makes each embedding a function of the first
    // token id, so distinct inputs yield distinct, order-matching outputs.
    let single_hello = engine.embed_texts(&vec!["hello".to_string()]).unwrap();
    let single_world = engine.embed_texts(&vec!["world".to_string()]).unwrap();
    assert_eq!(embeddings[0], single_hello[0]);
    assert_eq!(embeddings[1], single_world[0]);
    assert_ne!(embeddings[0], embeddings[1]);
}

#[test]
fn embeddings_come_out_normalized() {
    let mut engine = engine();
    let embeddings = engine.embed_texts(&vec!["hello world".to_string()]).unwrap();
    let norm: f32 = embeddings[0]
        .iter()
        .map(|&b| {
            let v = f32::from_bits(b);
            v * v
        })
        .sum::<f32>()
        .sqrt();
    assert!((norm - 1.0).abs() < 1e-5);
}

#[test]
fn zero_mask_pooling_fails() {
    let backend = ScriptedBackend;
    let mask = vec![0u32, 0, 0];
    let output = TensorOutput { shape: vec![1, 3, 2], data: vec![0u32; 6] };
    match mean_pooling(&backend, &output, &mask) {
        Err(EmbeddingError::EmbeddingFailed { error }) => {
            assert!(error.contains("No valid tokens"));
        }
        _ => panic!("expected pooling to fail on an all-zero mask"),
    }
}

#[test]
fn pooling_rejects_bad_shapes() {
    let backend = ScriptedBackend;
    let mask = vec![1u32, 1];
    let flat = TensorOutput { shape: vec![4], data: vec![0u32; 4] };
    assert!(mean_pooling(&backend, &flat, &mask).is_err());
    let mismatched = TensorOutput { shape: vec![1, 3, 2], data: vec![0u32; 6] };
    assert!(mean_pooling(&backend, &mismatched, &mask).is_err());
    let short_data = TensorOutput { shape: vec![1, 2, 2], data: vec![0u32; 3] };
    assert!(mean_pooling(&backend, &short_data, &mask).is_err());
}

#[test]
fn zero_norm_vector_is_rejected() {
    let backend = ScriptedBackend;
    let zeros = vec![0.0f32.to_bits(); 4];
    match normalize_embedding(&backend, &zeros) {
        Err(EmbeddingError::EmbeddingFailed { error }) => {
            assert!(error.contains("zero vector"));
        }
        _ => panic!("expected normalization to fail on a zero vector"),
    }
}

#[test]
fn model_inputs_are_three_equal_sequences() {
    let ids = vec![101u32, 7592, 102];
    let mask = vec![1u32, 1, 1];
    let inputs = build_model_inputs(&ids, &mask);
    assert_eq!(inputs.input_ids, vec![101i64, 7592, 102]);
    assert_eq!(inputs.attention_mask, vec![1i64, 1, 1]);
    assert_eq!(inputs.token_type_ids, vec![0i64, 0, 0]);
}

#[test]
fn valid_token_count_counts_ones_only() {
    assert_eq!(valid_token_count(&vec![]), 0);
    assert_eq!(valid_token_count(&vec![1, 0, 1, 2, 1]), 3);
}

#[test]
fn config_changes_update_exactly_their_setting() {
    let mut engine = engine();
    assert!(engine.handle_config_change("embedding.onnx.batch_size", "64").is_ok());
    assert!(engine.handle_config_change("embedding.onnx.max_seq_length", "128").is_ok());
    assert!(engine.handle_config_change("embedding.onnx.device", "\"cuda\"").is_ok());
    assert!(engine.handle_config_change("embedding.onnx.batch_size", "not a number").is_err());
    assert!(engine.handle_config_change("unrelated.key", "whatever").is_ok());
}

#[test]
fn model_info_reports_fixed_dimension() {
    let engine = engine();
    let info = engine.get_model_info().unwrap();
    assert_eq!(info.embedding_dimension, 384);
    assert_eq!(info.output_names, vec!["last_hidden_state".to_string()]);
}

#[test]
fn engine_rejects_bad_tokenizer_definition() {
    let result: Result<OnnxEmbeddingEngine<ScriptedBackend>, EmbeddingError> =
        OnnxEmbeddingEngine::new(b"not json", ScriptedBackend, &OnnxConfig::default());
    match result {
        Err(EmbeddingError::ModelLoadFailed { .. }) => {}
        _ => panic!("expected a load failure"),
    }
}
