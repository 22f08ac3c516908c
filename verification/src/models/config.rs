//! Configuration of the embedding models.
//!
//! The structures mirror the configuration file; reading and parsing that
//! file happen outside the verified core, which receives the plain values.
//! Model entries are kept as a keyed list in declaration order, in place of
//! an unordered map; lookups by model name search the `name` field, while
//! group membership is checked against the entry keys, as the configuration
//! file addresses models by their table key.

use crate::models::EmbeddingError;
use vstd::prelude::*;

verus! {

/// Global settings.
#[derive(Debug, Clone)]
pub struct GlobalConfig {
    /// Default model to use.
    pub default_model: String,
    /// Maximum batch size.
    pub max_batch_size: usize,
    /// Whether the cache is enabled.
    pub cache_enabled: bool,
    /// Cache size in megabytes.
    pub cache_size_mb: usize,
    /// Initialization timeout in seconds.
    pub init_timeout: u64,
    /// Inference timeout in seconds.
    pub inference_timeout: u64,
}

/// Configuration of one model.
#[derive(Debug, Clone)]
pub struct ModelConfig {
    /// Model name.
    pub name: String,
    /// Model description.
    pub description: String,
    /// Model version.
    pub version: String,
    /// Whether the model is enabled.
    pub enabled: bool,
    /// Path of the model artifact.
    pub model_path: String,
    /// Path of the tokenizer definition.
    pub tokenizer_path: String,
    /// Path of the model's own configuration.
    pub config_path: String,
    /// Maximum sequence length.
    pub max_sequence_length: usize,
    /// Embedding dimension.
    pub embedding_dimension: usize,
    /// Pooling mode.
    pub pooling_mode: String,
    /// Batch size.
    pub batch_size: usize,
    /// Whether the model runs on GPU.
    pub use_gpu: bool,
    /// Thread count.
    pub num_threads: usize,
    /// Path of the runtime library.
    pub onnx_runtime_path: String,
    /// Execution provider.
    pub execution_provider: String,
}

/// One configured model: its table key and its settings.
#[derive(Debug, Clone)]
pub struct ModelEntry {
    /// The key the configuration file declares the model under.
    pub key: String,
    /// The model's settings.
    pub config: ModelConfig,
}

/// Model groups for different use cases.
#[derive(Debug, Clone)]
pub struct ModelGroups {
    pub general: Vec<String>,
    pub multilingual: Vec<String>,
    pub high_dim: Vec<String>,
    pub gpu_models: Vec<String>,
}

impl Default for ModelGroups {
    /// Empty groups.
    fn default() -> (r: ModelGroups)
        ensures
            r.general@.len() == 0,
            r.multilingual@.len() == 0,
            r.high_dim@.len() == 0,
            r.gpu_models@.len() == 0,
    {
        ModelGroups {
            general: Vec::new(),
            multilingual: Vec::new(),
            high_dim: Vec::new(),
            gpu_models: Vec::new(),
        }
    }
}

/// Monitoring configuration.
#[derive(Debug, Clone)]
pub struct MonitoringConfig {
    pub metrics_enabled: bool,
    pub log_inference_times: bool,
    pub track_usage: bool,
    pub metrics_interval: u64,
}

impl Default for MonitoringConfig {
    /// Everything off.
    fn default() -> (r: MonitoringConfig)
        ensures
            !r.metrics_enabled,
            !r.log_inference_times,
            !r.track_usage,
            r.metrics_interval == 0,
    {
        MonitoringConfig {
            metrics_enabled: false,
            log_inference_times: false,
            track_usage: false,
            metrics_interval: 0,
        }
    }
}

/// Error handling configuration.
#[derive(Debug, Clone)]
pub struct ErrorHandlingConfig {
    pub max_retries: usize,
    pub retry_delay_ms: u64,
    pub circuit_breaker_enabled: bool,
    pub circuit_breaker_threshold: usize,
    pub circuit_breaker_timeout: u64,
}

impl Default for ErrorHandlingConfig {
    /// No retries, breaker off.
    fn default() -> (r: ErrorHandlingConfig)
        ensures
            r.max_retries == 0,
            r.retry_delay_ms == 0,
            !r.circuit_breaker_enabled,
            r.circuit_breaker_threshold == 0,
            r.circuit_breaker_timeout == 0,
    {
        ErrorHandlingConfig {
            max_retries: 0,
            retry_delay_ms: 0,
            circuit_breaker_enabled: false,
            circuit_breaker_threshold: 0,
            circuit_breaker_timeout: 0,
        }
    }
}

/// Development configuration.
#[derive(Debug, Clone)]
pub struct DevelopmentConfig {
    pub debug_logging: bool,
    pub validate_outputs: bool,
    pub save_intermediates: bool,
}

impl Default for DevelopmentConfig {
    /// Everything off.
    fn default() -> (r: DevelopmentConfig)
        ensures
            !r.debug_logging,
            !r.validate_outputs,
            !r.save_intermediates,
    {
        DevelopmentConfig { debug_logging: false, validate_outputs: false, save_intermediates: false }
    }
}

/// Global configuration for the embedding models.
#[derive(Debug, Clone)]
pub struct EmbeddingModelsConfig {
    /// Global settings.
    pub global: GlobalConfig,
    /// The configured models, in declaration order.
    pub models: Vec<ModelEntry>,
    /// Model groups.
    pub model_groups: ModelGroups,
    /// Monitoring settings.
    pub monitoring: MonitoringConfig,
    /// Error handling settings.
    pub error_handling: ErrorHandlingConfig,
    /// Development settings.
    pub development: DevelopmentConfig,
}

impl Default for EmbeddingModelsConfig {
    /// No models, the usual global settings.
    fn default() -> (r: EmbeddingModelsConfig)
        ensures
            r.global.default_model@ == "all-MiniLM-L6-v2"@,
            r.global.max_batch_size == 32,
            r.global.cache_enabled,
            r.global.cache_size_mb == 512,
            r.global.init_timeout == 300,
            r.global.inference_timeout == 60,
            r.models@.len() == 0,
    {
        EmbeddingModelsConfig {
            global: GlobalConfig {
                default_model: "all-MiniLM-L6-v2".to_owned(),
                max_batch_size: 32,
                cache_enabled: true,
                cache_size_mb: 512,
                init_timeout: 300,
                inference_timeout: 60,
            },
            models: Vec::new(),
            model_groups: ModelGroups::default(),
            monitoring: MonitoringConfig::default(),
            error_handling: ErrorHandlingConfig::default(),
            development: DevelopmentConfig::default(),
        }
    }
}

/// The first entry whose model is named `name`, if any.
pub open spec fn spec_find_named(s: Seq<ModelEntry>, name: Seq<char>) -> Option<int>
    decreases s.len(),
{
    if s.len() == 0 {
        None
    } else if s[0].config.name@ == name {
        Some(0)
    } else {
        match spec_find_named(s.drop_first(), name) {
            None => None,
            Some(i) => Some(i + 1),
        }
    }
}

/// What the first match looks like.
pub proof fn lemma_find_named(s: Seq<ModelEntry>, name: Seq<char>)
    ensures
        match spec_find_named(s, name) {
            Some(i) => 0 <= i < s.len() && s[i].config.name@ == name && forall|j: int|
                0 <= j < i ==> #[trigger] s[j].config.name@ != name,
            None => forall|j: int| 0 <= j < s.len() ==> #[trigger] s[j].config.name@ != name,
        },
    decreases s.len(),
{
    if s.len() > 0 && s[0].config.name@ != name {
        lemma_find_named(s.drop_first(), name);
        assert forall|j: int|
            1 <= j < s.len() implies #[trigger] s[j].config.name@ == s.drop_first()[j
            - 1].config.name@ by {}
    }
}

/// The settings of the enabled models, in declaration order.
pub open spec fn spec_enabled_configs(s: Seq<ModelEntry>) -> Seq<ModelConfig>
    decreases s.len(),
{
    if s.len() == 0 {
        Seq::empty()
    } else {
        spec_enabled_configs(s.drop_last()) + (if s.last().config.enabled {
            seq![s.last().config]
        } else {
            Seq::empty()
        })
    }
}

impl EmbeddingModelsConfig {
    /// Whether some entry is declared under key `key`.
    pub open spec fn spec_has_key(self, key: Seq<char>) -> bool {
        exists|i: int| 0 <= i < self.models@.len() && #[trigger] self.models@[i].key@ == key
    }

    /// Whether some entry's model is named `name`.
    pub open spec fn spec_has_model_named(self, name: Seq<char>) -> bool {
        spec_find_named(self.models@, name) is Some
    }

    /// All four groups name only declared model keys.
    pub open spec fn spec_groups_ok(self) -> bool {
        &&& forall|i: int|
            0 <= i < self.model_groups.general@.len() ==> self.spec_has_key(
                #[trigger] self.model_groups.general@[i]@,
            )
        &&& forall|i: int|
            0 <= i < self.model_groups.multilingual@.len() ==> self.spec_has_key(
                #[trigger] self.model_groups.multilingual@[i]@,
            )
        &&& forall|i: int|
            0 <= i < self.model_groups.high_dim@.len() ==> self.spec_has_key(
                #[trigger] self.model_groups.high_dim@[i]@,
            )
        &&& forall|i: int|
            0 <= i < self.model_groups.gpu_models@.len() ==> self.spec_has_key(
                #[trigger] self.model_groups.gpu_models@[i]@,
            )
    }

    /// The whole validity rule: the default model is declared and enabled,
    /// and every group member is declared.
    pub open spec fn spec_valid(self) -> bool {
        &&& match spec_find_named(self.models@, self.global.default_model@) {
            Some(i) => self.models@[i].config.enabled,
            None => false,
        }
        &&& self.spec_groups_ok()
    }

    /// The index of the first entry whose model is named `name`.
    fn find_named(&self, name: &str) -> (r: Option<usize>)
        ensures
            match r {
                Some(i) => spec_find_named(self.models@, name@) == Some(i as int),
                None => spec_find_named(self.models@, name@) is None,
            },
    {
        proof {
            lemma_find_named(self.models@, name@);
        }
        let mut i: usize = 0;
        while i < self.models.len()
            invariant
                i <= self.models@.len(),
                forall|j: int| 0 <= j < i ==> #[trigger] self.models@[j].config.name@ != name@,
                match spec_find_named(self.models@, name@) {
                    Some(k) => 0 <= k < self.models@.len() && self.models@[k].config.name@ == name@
                        && forall|j: int|
                        0 <= j < k ==> #[trigger] self.models@[j].config.name@ != name@,
                    None => forall|j: int|
                        0 <= j < self.models@.len() ==> #[trigger] self.models@[j].config.name@
                            != name@,
                },
            decreases self.models@.len() - i,
        {
            if str_eq(self.models[i].config.name.as_str(), name) {
                return Some(i);
            }
            i += 1;
        }
        None
    }

    /// Whether some entry is declared under key `key`.
    fn has_key(&self, key: &str) -> (r: bool)
        ensures
            r == self.spec_has_key(key@),
    {
        let mut i: usize = 0;
        while i < self.models.len()
            invariant
                i <= self.models@.len(),
                forall|j: int| 0 <= j < i ==> #[trigger] self.models@[j].key@ != key@,
            decreases self.models@.len() - i,
        {
            if str_eq(self.models[i].key.as_str(), key) {
                return true;
            }
            i += 1;
        }
        false
    }

    /// The configuration of the default model: the first entry carrying the
    /// default model's name, present exactly when one is declared.
    pub fn get_default_model(&self) -> (r: Option<&ModelConfig>)
        ensures
            r is Some <==> self.spec_has_model_named(self.global.default_model@),
            r matches Some(m) ==> spec_find_named(self.models@, self.global.default_model@)
                matches Some(i) && *m == self.models@[i].config,
    {
        let name = self.global.default_model.clone();
        proof {
            lemma_find_named(self.models@, name@);
        }
        match self.find_named(name.as_str()) {
            Some(i) => Some(&self.models[i].config),
            None => None,
        }
    }

    /// The configuration of the first model named `name`, present exactly
    /// when one is declared.
    pub fn get_model(&self, name: &str) -> (r: Option<&ModelConfig>)
        ensures
            r is Some <==> self.spec_has_model_named(name@),
            r matches Some(m) ==> spec_find_named(self.models@, name@) matches Some(i) && *m
                == self.models@[i].config,
    {
        proof {
            lemma_find_named(self.models@, name@);
        }
        match self.find_named(name) {
            Some(i) => Some(&self.models[i].config),
            None => None,
        }
    }

    /// All enabled models, in declaration order.
    pub fn get_enabled_models(&self) -> (r: Vec<&ModelConfig>)
        ensures
            r@.map_values(|m: &ModelConfig| *m) == spec_enabled_configs(self.models@),
    {
        let mut r: Vec<&ModelConfig> = Vec::new();
        let mut i: usize = 0;
        while i < self.models.len()
            invariant
                i <= self.models@.len(),
                r@.map_values(|m: &ModelConfig| *m) == spec_enabled_configs(
                    self.models@.subrange(0, i as int),
                ),
            decreases self.models@.len() - i,
        {
            proof {
                let prefix = self.models@.subrange(0, i + 1);
                assert(prefix.drop_last() =~= self.models@.subrange(0, i as int));
                assert(prefix.last() == self.models@[i as int]);
            }
            if self.models[i].config.enabled {
                r.push(&self.models[i].config);
                assert(r@.map_values(|m: &ModelConfig| *m) =~= spec_enabled_configs(
                    self.models@.subrange(0, i + 1),
                ));
            } else {
                assert(r@.map_values(|m: &ModelConfig| *m) =~= spec_enabled_configs(
                    self.models@.subrange(0, i + 1),
                ));
            }
            i += 1;
        }
        assert(self.models@.subrange(0, self.models@.len() as int) =~= self.models@);
        r
    }

    /// Validates the configuration: the default model must be declared and
    /// enabled, and every group member must name a declared key.
    pub fn validate(&self) -> (r: Result<(), EmbeddingError>)
        ensures
            r is Ok <==> self.spec_valid(),
            r matches Err(e) ==> e is ConfigError,
    {
        proof {
            lemma_find_named(self.models@, self.global.default_model@);
        }
        let name = self.global.default_model.clone();
        let default_index = match self.find_named(name.as_str()) {
            Some(i) => i,
            None => {
                return Err(EmbeddingError::ConfigError {
                    message: "default model not found in models".to_owned(),
                });
            },
        };
        if !self.models[default_index].config.enabled {
            return Err(EmbeddingError::ConfigError {
                message: "default model is not enabled".to_owned(),
            });
        }
        if !self.group_ok(&self.model_groups.general) {
            return Err(EmbeddingError::ConfigError {
                message: "model in group not found in models".to_owned(),
            });
        }
        if !self.group_ok(&self.model_groups.multilingual) {
            return Err(EmbeddingError::ConfigError {
                message: "model in group not found in models".to_owned(),
            });
        }
        if !self.group_ok(&self.model_groups.high_dim) {
            return Err(EmbeddingError::ConfigError {
                message: "model in group not found in models".to_owned(),
            });
        }
        if !self.group_ok(&self.model_groups.gpu_models) {
            return Err(EmbeddingError::ConfigError {
                message: "model in group not found in models".to_owned(),
            });
        }
        Ok(())
    }

    /// Whether every name in `group` is a declared key.
    fn group_ok(&self, group: &Vec<String>) -> (r: bool)
        ensures
            r <==> forall|i: int|
                0 <= i < group@.len() ==> self.spec_has_key(#[trigger] group@[i]@),
    {
        let mut i: usize = 0;
        while i < group.len()
            invariant
                i <= group@.len(),
                forall|j: int| 0 <= j < i ==> self.spec_has_key(#[trigger] group@[j]@),
            decreases group@.len() - i,
        {
            if !self.has_key(group[i].as_str()) {
                return false;
            }
            i += 1;
        }
        true
    }
}

/// Whether two texts are the same sequence of characters.
pub fn str_eq(a: &str, b: &str) -> (r: bool)
    ensures
        r <==> a@ == b@,
{
    let x = a.to_owned();
    let y = b.to_owned();
    x == y
}

} // verus!
