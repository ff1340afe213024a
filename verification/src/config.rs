//! Configuration model: plain data describing the database, cache, API,
//! localization and logging settings.  Reading it from the environment or
//! a file, and writing it back, is the embedding program's business; the
//! library only defines the shape and the invariants worth checking.

use vstd::prelude::*;

verus! {

/// Database connection settings.
#[derive(Debug)]
pub struct DatabaseConfig {
    pub host: String,
    pub port: u16,
    pub username: String,
    pub password: String,
    pub database_name: String,
    pub max_connections: u32,
}

/// Cache sizing and expiry settings.
#[derive(Debug)]
pub struct CacheConfig {
    pub ttl_seconds: u64,
    pub max_size: usize,
    pub cleanup_interval: u64,
}

/// External search provider settings.
#[derive(Debug)]
pub struct ApiConfig {
    pub perplexity_api_key: String,
    pub perplexity_api_url: String,
    pub timeout_seconds: u64,
    pub max_retries: u32,
}

/// Language settings.
#[derive(Debug)]
pub struct LocalizationConfig {
    pub default_language: String,
    pub available_languages: Vec<String>,
    pub fallback_language: String,
}

/// Logging settings.  The log file is named by its path text.
#[derive(Debug)]
pub struct LoggingConfig {
    pub level: String,
    pub file_path: String,
    pub rotation_size: u64,
    pub max_files: u32,
}

/// The whole configuration.
#[derive(Debug)]
pub struct Config {
    pub environment: String,
    pub server_port: u16,
    pub database: DatabaseConfig,
    pub cache: CacheConfig,
    pub api: ApiConfig,
    pub localization: LocalizationConfig,
    pub logging: LoggingConfig,
}

/// A configuration the dialog core can run on: the cache expires, and a
/// maintenance pass is scheduled no rarer than the expiry itself.
pub open spec fn spec_config_usable(c: Config) -> bool {
    &&& c.cache.ttl_seconds > 0
    &&& c.cache.cleanup_interval > 0
}

impl Config {
    /// Whether the dialog core can run on this configuration.
    pub fn is_usable(&self) -> (b: bool)
        ensures
            b == spec_config_usable(*self),
    {
        self.cache.ttl_seconds > 0 && self.cache.cleanup_interval > 0
    }
}

} // verus!
