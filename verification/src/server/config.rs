//! Configuration of the connection server.  Reading and parsing the
//! configuration file happen outside the verified core.

use vstd::prelude::*;

verus! {

/// Network settings.
#[derive(Debug, Clone)]
pub struct NetworkConfig {
    /// Address the wire protocol listens on.
    pub bind_address: String,
    /// Address the HTTP gateway listens on.
    pub http_bind_address: String,
    /// The most connections held open at once.
    pub max_connections: usize,
    pub connection_timeout_secs: u64,
    pub read_timeout_secs: u64,
    pub write_timeout_secs: u64,
    pub keep_alive_interval_secs: u64,
    pub max_message_size: usize,
    pub buffer_size: usize,
}

/// Worker settings.
#[derive(Debug, Clone)]
pub struct PerformanceConfig {
    pub worker_threads: usize,
    pub message_queue_size: usize,
    pub max_concurrent_tasks: usize,
}

/// Embedding settings.
#[derive(Debug, Clone)]
pub struct EmbeddingConfig {
    /// Path of the models configuration file.
    pub models_config: String,
    /// Name of the default model.
    pub default_model: String,
    pub max_batch_size: usize,
    pub request_timeout_secs: u64,
}

/// Monitoring settings.
#[derive(Debug, Clone)]
pub struct MonitoringConfig {
    pub enable_metrics: bool,
    pub metrics_interval_secs: u64,
    pub enable_detailed_logging: bool,
    pub log_level: String,
    pub enable_connection_stats: bool,
}

/// The whole server configuration.
#[derive(Debug, Clone)]
pub struct ServerConfig {
    pub network: NetworkConfig,
    pub performance: PerformanceConfig,
    pub embedding: EmbeddingConfig,
    pub monitoring: MonitoringConfig,
}

impl Default for ServerConfig {
    /// The usual addresses and limits.
    fn default() -> (r: ServerConfig)
        ensures
            r.network.bind_address@ == "0.0.0.0:8787"@,
            r.network.http_bind_address@ == "0.0.0.0:8699"@,
            r.network.max_connections == 100,
            r.network.connection_timeout_secs == 30,
            r.network.read_timeout_secs == 30,
            r.network.write_timeout_secs == 30,
            r.network.keep_alive_interval_secs == 60,
            r.network.max_message_size == 5242880,
            r.network.buffer_size == 32768,
            r.performance.worker_threads == 4,
            r.performance.message_queue_size == 5000,
            r.performance.max_concurrent_tasks == 50,
            r.embedding.models_config@ == "embeddingmodels.toml"@,
            r.embedding.default_model@ == "All MiniLM L6 v2"@,
            r.embedding.max_batch_size == 32,
            r.embedding.request_timeout_secs == 30,
            r.monitoring.enable_metrics,
            r.monitoring.metrics_interval_secs == 60,
            r.monitoring.enable_detailed_logging,
            r.monitoring.log_level@ == "info"@,
            r.monitoring.enable_connection_stats,
    {
        ServerConfig {
            network: NetworkConfig {
                bind_address: "0.0.0.0:8787".to_owned(),
                http_bind_address: "0.0.0.0:8699".to_owned(),
                max_connections: 100,
                connection_timeout_secs: 30,
                read_timeout_secs: 30,
                write_timeout_secs: 30,
                keep_alive_interval_secs: 60,
                max_message_size: 5242880,
                buffer_size: 32768,
            },
            performance: PerformanceConfig {
                worker_threads: 4,
                message_queue_size: 5000,
                max_concurrent_tasks: 50,
            },
            embedding: EmbeddingConfig {
                models_config: "embeddingmodels.toml".to_owned(),
                default_model: "All MiniLM L6 v2".to_owned(),
                max_batch_size: 32,
                request_timeout_secs: 30,
            },
            monitoring: MonitoringConfig {
                enable_metrics: true,
                metrics_interval_secs: 60,
                enable_detailed_logging: true,
                log_level: "info".to_owned(),
                enable_connection_stats: true,
            },
        }
    }
}

} // verus!
