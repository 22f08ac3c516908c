//! Tests of admission control and per-frame request handling.

use embedding_server::models::config::EmbeddingModelsConfig;
use embedding_server::models::config::ModelConfig;
use embedding_server::models::config::ModelEntry;
use embedding_server::models::manager::EmbeddingModelsManager;
use embedding_server::models::model::EmbeddingModel;
use embedding_server::models::model::ModelInfo;
use embedding_server::models::Embedding;
use embedding_server::models::EmbeddingResult;
use embedding_server::protocol::deserialize_response;
use embedding_server::protocol::serialize_request;
use embedding_server::protocol::EmbedRequest;
use embedding_server::protocol::EmbedResponse;
use embedding_server::protocol::ProtocolMessage;
use embedding_server::server::build_embed_reply;
use embedding_server::server::process_frame;
use embedding_server::server::ConnectionLimiter;
use embedding_server::server::ServerConfig;

struct FixedModel {
    info: ModelInfo,
    embedding: Embedding,
}

impl FixedModel {
    fn new(name: &str, embedding: Embedding) -> FixedModel {
        FixedModel {
            info: ModelInfo {
                name: name.to_string(),
                description: String::new(),
                version: "1".to_string(),
                dimension: embedding.len(),
                max_sequence_length: 512,
                pooling_mode: "mean".to_string(),
                uses_gpu: false,
                model_path: String::new(),
                tokenizer_path: String::new(),
            },
            embedding,
        }
    }
}

impl EmbeddingModel for FixedModel {
    fn info(&self) -> &ModelInfo {
        &self.info
    }

    fn initialize(&mut self) -> EmbeddingResult<()> {
        Ok(())
    }

    fn is_ready(&self) -> bool {
        true
    }

    fn embed_text(&self, _text: &str) -> EmbeddingResult<Embedding> {
        Ok(self.embedding.clone())
    }

    fn embed_batch(&self, texts: &[String]) -> EmbeddingResult<Vec<Embedding>> {
        Ok(texts.iter().map(|_| self.embedding.clone()).collect())
    }

    fn shutdown(&mut self) -> EmbeddingResult<()> {
        Ok(())
    }
}

fn model_config(name: &str) -> ModelConfig {
    ModelConfig {
        name: name.to_string(),
        description: String::new(),
        version: "1".to_string(),
        enabled: true,
        model_path: String::new(),
        tokenizer_path: String::new(),
        config_path: String::new(),
        max_sequence_length: 512,
        embedding_dimension: 2,
        pooling_mode: "mean".to_string(),
        batch_size: 1,
        use_gpu: false,
        num_threads: 1,
        onnx_runtime_path: String::new(),
        execution_provider: "CPU".to_string(),
    }
}

fn manager_with_default() -> EmbeddingModelsManager<FixedModel> {
    let mut config = EmbeddingModelsConfig::default();
    config.global.default_model = "default-model".to_string();
    config.models = vec![ModelEntry {
        key: "default-model".to_string(),
        config: model_config("default-model"),
    }];
    let mut manager = EmbeddingModelsManager::from_config(config).unwrap();
    let embedding = vec![1.0f32.to_bits(), 0.0f32.to_bits()];
    manager.load_model("default-model", FixedModel::new("default-model", embedding)).unwrap();
    manager
}

#[test]
fn limiter_rejects_the_over_limit_arrival() {
    let mut limiter = ConnectionLimiter::new(2);
    assert!(limiter.try_acquire());
    assert!(limiter.try_acquire());
    assert!(!limiter.try_acquire());
    limiter.release();
    assert!(limiter.try_acquire());
    assert!(!limiter.try_acquire());
}

#[test]
fn limiter_with_zero_ceiling_rejects_everything() {
    let mut limiter = ConnectionLimiter::new(0);
    assert!(!limiter.try_acquire());
}

#[test]
fn frame_with_valid_request_earns_the_embedding_reply() {
    let manager = manager_with_default();
    let payload = serialize_request(&EmbedRequest { text: "hi".to_string(), model: None }).unwrap();
    let request = ProtocolMessage::new(77, None, payload);
    let reply = process_frame(&manager, 5, &request);
    assert_eq!(reply.sender_id, 5);
    assert_eq!(reply.target_id, Some(77));
    match deserialize_response(&reply.payload).unwrap() {
        EmbedResponse::DirectArray(v) => {
            assert_eq!(v, vec![1.0f32.to_bits(), 0.0f32.to_bits()]);
        }
        _ => panic!("expected the bare-array shape"),
    }
}

#[test]
fn frame_with_malformed_payload_earns_an_error_reply() {
    let manager = manager_with_default();
    let request = ProtocolMessage::new(77, None, vec![0xff, 0xfe]);
    let reply = process_frame(&manager, 5, &request);
    assert_eq!(reply.target_id, Some(77));
    assert_eq!(reply.payload[0], 0x91);
}

#[test]
fn frame_naming_a_missing_model_earns_an_error_reply() {
    let manager = manager_with_default();
    let payload = serialize_request(&EmbedRequest {
        text: "hi".to_string(),
        model: Some("missing".to_string()),
    })
    .unwrap();
    let request = ProtocolMessage::new(1, None, payload);
    let reply = process_frame(&manager, 5, &request);
    assert_eq!(reply.payload[0], 0x91);
}

#[test]
fn embed_reply_wraps_outcomes() {
    let ok = build_embed_reply(3, 9, Ok(vec![2.0f32.to_bits()]));
    assert_eq!(ok.sender_id, 3);
    assert_eq!(ok.target_id, Some(9));
    assert_eq!(ok.payload[0], 0xdd);

    let err = build_embed_reply(
        3,
        9,
        Err(embedding_server::models::EmbeddingError::EmbeddingFailed {
            error: "boom".to_string(),
        }),
    );
    assert_eq!(err.payload[0], 0x91);
}

#[test]
fn server_config_default_addresses_and_limits() {
    let config = ServerConfig::default();
    assert_eq!(config.network.bind_address, "0.0.0.0:8787");
    assert_eq!(config.network.http_bind_address, "0.0.0.0:8699");
    assert_eq!(config.network.max_connections, 100);
    assert_eq!(config.embedding.default_model, "All MiniLM L6 v2");
    assert_eq!(config.performance.max_concurrent_tasks, 50);
}
