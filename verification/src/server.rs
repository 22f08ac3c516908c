//! The connection server's verified core: configuration, admission control,
//! and the per-frame request handling.

pub mod config;
pub mod server;

pub use config::ServerConfig;
pub use server::build_embed_reply;
pub use server::build_error_reply;
pub use server::process_frame;
pub use server::ConnectionLimiter;
