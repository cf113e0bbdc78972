//! The configuration of the server.

use vstd::prelude::*;

verus! {

/// Where the documents are kept.
#[derive(Debug, Clone, PartialEq, Eq)]
pub enum StorageFormat {
    /// As JSON files under two directories.
    Json { meta_directory: String, generated_directory: String },
    /// In a database.
    Database,
}

/// The configuration of the synchronisation.
#[derive(Debug, Clone, PartialEq, Eq)]
pub struct MetadataConfig {
    /// How many fetches may run at once.
    pub max_parallel_fetch_connections: usize,
    /// Where the documents lie that are kept by hand.
    pub static_directory: String,
}

/// The configuration of the debug log.
#[derive(Debug, Clone, PartialEq, Eq)]
pub struct DebugLogConfig {
    pub enable: bool,
    pub path: String,
    pub prefix: String,
    pub level: String,
}

/// The configuration of the server.
#[derive(Debug, Clone, PartialEq, Eq)]
pub struct ServerConfig {
    pub bind_address: String,
    pub storage_format: StorageFormat,
    pub metadata: MetadataConfig,
    pub debug_log: DebugLogConfig,
}

impl ServerConfig {
    /// The configuration that holds where no file and no variable of the
    /// environment says otherwise.
    pub fn defaults() -> (r: ServerConfig)
        ensures
            r.bind_address@ == "127.0.0.1:8080"@,
            r.storage_format matches StorageFormat::Json { meta_directory, generated_directory }
                && meta_directory@ == "meta"@ && generated_directory@ == "generated"@,
            r.metadata.max_parallel_fetch_connections == 4,
            r.metadata.static_directory@ == "static"@,
            !r.debug_log.enable,
            r.debug_log.path@ == "./logs"@,
            r.debug_log.prefix@ == "mcmeta.log"@,
            r.debug_log.level@ == "debug"@,
    {
        ServerConfig {
            bind_address: "127.0.0.1:8080".to_owned(),
            storage_format: StorageFormat::Json {
                meta_directory: "meta".to_owned(),
                generated_directory: "generated".to_owned(),
            },
            metadata: MetadataConfig {
                max_parallel_fetch_connections: 4,
                static_directory: "static".to_owned(),
            },
            debug_log: DebugLogConfig {
                enable: false,
                path: "./logs".to_owned(),
                prefix: "mcmeta.log".to_owned(),
                level: "debug".to_owned(),
            },
        }
    }
}

} // verus!
