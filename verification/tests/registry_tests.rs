//! Tests of the model registry, the manager and the model metadata.

use embedding_server::models::config::EmbeddingModelsConfig;
use embedding_server::models::config::ModelConfig;
use embedding_server::models::config::ModelEntry;
use embedding_server::models::manager::EmbeddingModelsManager;
use embedding_server::models::model::EmbeddingModel;
use embedding_server::models::model::ModelInfo;
use embedding_server::models::registry::ModelRegistry;
use embedding_server::models::Embedding;
use embedding_server::models::EmbeddingError;
use embedding_server::models::EmbeddingResult;

struct StubModel {
    info: ModelInfo,
    embedding: Embedding,
}

impl StubModel {
    fn new(name: &str) -> StubModel {
        StubModel {
            info: ModelInfo {
                name: name.to_string(),
                description: "stub".to_string(),
                version: "0".to_string(),
                dimension: 3,
                max_sequence_length: 16,
                pooling_mode: "mean".to_string(),
                uses_gpu: false,
                model_path: String::new(),
                tokenizer_path: String::new(),
            },
            embedding: vec![1.0f32.to_bits(), 0.0f32.to_bits(), 0.0f32.to_bits()],
        }
    }
}

impl EmbeddingModel for StubModel {
    fn info(&self) -> &ModelInfo {
        &self.info
    }

    fn initialize(&mut self) -> EmbeddingResult<()> {
        Ok(())
    }

    fn is_ready(&self) -> bool {
        true
    }

    fn embed_text(&self, _text: &str) -> EmbeddingResult<Embedding> {
        Ok(self.embedding.clone())
    }

    fn embed_batch(&self, texts: &[String]) -> EmbeddingResult<Vec<Embedding>> {
        Ok(texts.iter().map(|_| self.embedding.clone()).collect())
    }

    fn shutdown(&mut self) -> EmbeddingResult<()> {
        Ok(())
    }
}

fn sample_config(name: &str) -> ModelConfig {
    ModelConfig {
        name: name.to_string(),
        description: "A test model".to_string(),
        version: "1.0.0".to_string(),
        enabled: true,
        model_path: "test/model.onnx".to_string(),
        tokenizer_path: "test/tokenizer.json".to_string(),
        config_path: "test/config.json".to_string(),
        max_sequence_length: 256,
        embedding_dimension: 384,
        pooling_mode: "mean".to_string(),
        batch_size: 16,
        use_gpu: false,
        num_threads: 4,
        onnx_runtime_path: "runtime".to_string(),
        execution_provider: "CPU".to_string(),
    }
}

#[test]
fn test_manager_creation() {
    let manager: EmbeddingModelsManager<StubModel> = EmbeddingModelsManager::new();
    let models = manager.get_loaded_models_info();
    assert!(models.is_empty());
}

#[test]
fn manager_test_config_validation() {
    let mut config = EmbeddingModelsConfig::default();
    config.global.default_model = "Test Model".to_string();
    config.models =
        vec![ModelEntry { key: "test-model".to_string(), config: sample_config("Test Model") }];
    let manager: Result<EmbeddingModelsManager<StubModel>, EmbeddingError> =
        EmbeddingModelsManager::from_config(config);
    assert!(manager.is_ok());
}

#[test]
fn test_model_info() {
    let info = ModelInfo {
        name: "test-model".to_string(),
        description: "Test model".to_string(),
        version: "1.0.0".to_string(),
        dimension: 384,
        max_sequence_length: 256,
        pooling_mode: "mean".to_string(),
        uses_gpu: false,
        model_path: "test/model.onnx".to_string(),
        tokenizer_path: "test/tokenizer.json".to_string(),
    };

    assert_eq!(info.name, "test-model");
    assert_eq!(info.dimension, 384);
    assert!(!info.uses_gpu);
}

#[test]
fn test_registry_creation() {
    let registry: ModelRegistry<StubModel> = ModelRegistry::new();
    let models = registry.list_models();
    assert!(models.is_empty());
}

#[test]
fn test_registry_operations() {
    let registry: ModelRegistry<StubModel> = ModelRegistry::new();

    assert!(registry.list_models().is_empty());

    assert!(!registry.is_model_loaded("test-model"));
    assert!(registry.get_model("test-model").is_none());
}

#[test]
fn load_then_unload_changes_visibility() {
    let mut registry: ModelRegistry<StubModel> = ModelRegistry::new();
    let config = sample_config("test-model");

    registry.load_model(&config, StubModel::new("test-model")).unwrap();
    assert!(registry.is_model_loaded("test-model"));
    assert!(registry.get_model("test-model").is_some());
    let info = registry.get_model_info("test-model").unwrap();
    assert_eq!(info.name, "test-model");
    assert_eq!(info.dimension, 384);
    assert_eq!(info.max_sequence_length, 256);

    registry.unload_model("test-model").unwrap();
    assert!(!registry.is_model_loaded("test-model"));
    assert!(registry.get_model_info("test-model").is_none());

    match registry.unload_model("test-model") {
        Err(EmbeddingError::ModelNotFound { model_name }) => {
            assert_eq!(model_name, "test-model");
        }
        _ => panic!("expected a not-found failure"),
    }
}

#[test]
fn manager_dispatches_to_loaded_default_model() {
    let mut config = EmbeddingModelsConfig::default();
    config.global.default_model = "test-model".to_string();
    config.models =
        vec![ModelEntry { key: "test-model".to_string(), config: sample_config("test-model") }];
    let mut manager: EmbeddingModelsManager<StubModel> =
        EmbeddingModelsManager::from_config(config).unwrap();

    match manager.embed_text("anything") {
        Err(EmbeddingError::ModelNotFound { model_name }) => {
            assert_eq!(model_name, "test-model");
        }
        _ => panic!("expected a not-found failure before loading"),
    }

    manager.load_model("test-model", StubModel::new("test-model")).unwrap();
    assert!(manager.is_model_loaded("test-model"));
    let embedding = manager.embed_text("anything").unwrap();
    assert_eq!(embedding, vec![1.0f32.to_bits(), 0.0f32.to_bits(), 0.0f32.to_bits()]);

    let batch = manager.embed_batch(&["a".to_string(), "b".to_string()]).unwrap();
    assert_eq!(batch.len(), 2);

    assert!(manager.load_model("unknown", StubModel::new("unknown")).is_err());
    assert!(manager.embed_text_with_model("t", "unknown").is_err());

    manager.unload_model("test-model").unwrap();
    assert!(!manager.is_model_loaded("test-model"));
}

#[test]
fn manager_group_queries_ignore_load_state() {
    let mut config = EmbeddingModelsConfig::default();
    config.global.default_model = "test-model".to_string();
    config.models =
        vec![ModelEntry { key: "test-model".to_string(), config: sample_config("test-model") }];
    config.model_groups.general = vec!["test-model".to_string()];
    let manager: EmbeddingModelsManager<StubModel> =
        EmbeddingModelsManager::from_config(config).unwrap();

    assert_eq!(manager.get_models_by_group("general"), vec!["test-model".to_string()]);
    assert!(manager.get_models_by_group("multilingual").is_empty());
    assert!(manager.get_models_by_group("nonsense").is_empty());
    assert!(manager.get_gpu_models().is_empty());
}

#[test]
fn reload_config_clears_models_and_swaps_config() {
    let mut config = EmbeddingModelsConfig::default();
    config.global.default_model = "test-model".to_string();
    config.models =
        vec![ModelEntry { key: "test-model".to_string(), config: sample_config("test-model") }];
    let mut manager: EmbeddingModelsManager<StubModel> =
        EmbeddingModelsManager::from_config(config).unwrap();
    manager.load_model("test-model", StubModel::new("test-model")).unwrap();
    assert!(manager.is_model_loaded("test-model"));

    let mut bad = EmbeddingModelsConfig::default();
    bad.global.default_model = "missing".to_string();
    assert!(manager.reload_config(bad).is_err());
    assert!(manager.is_model_loaded("test-model"));

    let mut fresh = EmbeddingModelsConfig::default();
    fresh.global.default_model = "other".to_string();
    fresh.models =
        vec![ModelEntry { key: "other".to_string(), config: sample_config("other") }];
    manager.reload_config(fresh).unwrap();
    assert!(!manager.is_model_loaded("test-model"));
    assert_eq!(manager.config().global.default_model, "other");
}

#[test]
fn shutdown_empties_the_registry() {
    let mut config = EmbeddingModelsConfig::default();
    config.global.default_model = "test-model".to_string();
    config.models =
        vec![ModelEntry { key: "test-model".to_string(), config: sample_config("test-model") }];
    let mut manager: EmbeddingModelsManager<StubModel> =
        EmbeddingModelsManager::from_config(config).unwrap();
    manager.load_model("test-model", StubModel::new("test-model")).unwrap();
    manager.shutdown().unwrap();
    assert!(manager.get_loaded_models_info().is_empty());
}

#[test]
fn error_kinds_name_their_variant() {
    let e = EmbeddingError::ConfigError { message: "m".to_string() };
    assert_eq!(e.kind(), "configuration error");
    let e = EmbeddingError::ModelNotFound { model_name: "x".to_string() };
    assert_eq!(e.kind(), "model not found");
    let e = EmbeddingError::InvalidInput { message: "m".to_string() };
    assert_eq!(e.kind(), "invalid input");
}
