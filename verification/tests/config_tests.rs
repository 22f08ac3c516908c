//! Tests of the models configuration and its validation.

use embedding_server::models::config::EmbeddingModelsConfig;
use embedding_server::models::config::GlobalConfig;
use embedding_server::models::config::ModelConfig;
use embedding_server::models::config::ModelEntry;
use embedding_server::models::config::ModelGroups;

fn test_model_config() -> ModelConfig {
    ModelConfig {
        name: "Test Model".to_string(),
        description: "A test model".to_string(),
        version: "1.0.0".to_string(),
        enabled: true,
        model_path: "test/model.onnx".to_string(),
        tokenizer_path: "test/tokenizer.json".to_string(),
        config_path: "test/config.json".to_string(),
        max_sequence_length: 256,
        embedding_dimension: 384,
        pooling_mode: "mean".to_string(),
        batch_size: 16,
        use_gpu: false,
        num_threads: 4,
        onnx_runtime_path: "runtime".to_string(),
        execution_provider: "CPU".to_string(),
    }
}

fn valid_config() -> EmbeddingModelsConfig {
    let mut config = EmbeddingModelsConfig::default();
    config.global = GlobalConfig {
        default_model: "Test Model".to_string(),
        max_batch_size: 32,
        cache_enabled: true,
        cache_size_mb: 512,
        init_timeout: 300,
        inference_timeout: 60,
    };
    config.models = vec![ModelEntry { key: "test-model".to_string(), config: test_model_config() }];
    config
}

#[test]
fn config_test_config_validation() {
    let config = valid_config();
    assert!(config.validate().is_ok());
}

#[test]
fn test_invalid_default_model() {
    let mut config = EmbeddingModelsConfig::default();
    config.global.default_model = "nonexistent-model".to_string();
    assert!(config.validate().is_err());
}

#[test]
fn validation_rejects_disabled_default() {
    let mut config = valid_config();
    config.models[0].config.enabled = false;
    assert!(config.validate().is_err());
}

#[test]
fn validation_checks_group_members() {
    let mut config = valid_config();
    config.model_groups = ModelGroups {
        general: vec!["test-model".to_string()],
        multilingual: Vec::new(),
        high_dim: Vec::new(),
        gpu_models: Vec::new(),
    };
    assert!(config.validate().is_ok());

    config.model_groups.general.push("missing-model".to_string());
    assert!(config.validate().is_err());
}

#[test]
fn lookups_search_the_name_field() {
    let config = valid_config();
    assert!(config.get_model("Test Model").is_some());
    assert!(config.get_model("test-model").is_none());
    assert_eq!(config.get_default_model().unwrap().name, "Test Model");
    let enabled = config.get_enabled_models();
    assert_eq!(enabled.len(), 1);
    assert_eq!(enabled[0].name, "Test Model");
}
