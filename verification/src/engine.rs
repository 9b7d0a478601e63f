use vstd::prelude::*;
use vstd::string::StringExecFns;

verus! {

/// How many index entries the in-memory cache of an engine instance holds.
pub const HNSW_CACHE_CAPACITY: usize = 65536;

/// How many records an engine instance wants before invoking compaction.
pub const MIN_RECORDS_FOR_INVOCATION: u32 = 100;

/// Everything one engine instance is constructed with. Built once per
/// `initialize` call; two handles never share settings, so separate
/// initializations stay fully independent.
#[derive(Debug, Clone, PartialEq, Eq)]
pub struct EngineSettings {
    /// Whether `reset` may wipe the instance.
    pub allow_reset: bool,
    /// The storage directory; created if absent before the engine starts.
    pub storage_path: String,
    /// The engine's database file inside the storage directory.
    pub db_file_path: String,
    /// Tenant under which the write-ahead log runs.
    pub log_tenant: String,
    /// Topic namespace of the write-ahead log.
    pub log_topic_namespace: String,
    /// Capacity of the in-memory index cache.
    pub hnsw_cache_capacity: usize,
    /// Whether the engine keeps a schema.
    pub enable_schema: bool,
    /// Record threshold for compaction.
    pub min_records_for_invocation: u32,
}

/// Assembles the construction-time settings of one engine instance. The
/// result is a function of the two arguments alone: a missing storage path
/// falls back to the conventional directory, the database file always lies
/// inside the storage directory, and every other knob is fixed.
pub fn engine_settings(allow_reset: bool, persist_path: Option<String>) -> (s: EngineSettings)
    ensures
        s.allow_reset == allow_reset,
        persist_path matches Some(p) ==> s.storage_path == p,
        persist_path is None ==> s.storage_path@ == "./chroma_data"@,
        s.db_file_path@ == s.storage_path@ + "/chroma.db"@,
        s.log_tenant@ == "default"@,
        s.log_topic_namespace@ == "default"@,
        s.hnsw_cache_capacity == HNSW_CACHE_CAPACITY,
        s.enable_schema,
        s.min_records_for_invocation == MIN_RECORDS_FOR_INVOCATION,
{
    let storage_path: String = match persist_path {
        Some(p) => p,
        None => String::from_str("./chroma_data"),
    };
    let mut db_file_path = storage_path.clone();
    db_file_path.append("/chroma.db");
    EngineSettings {
        allow_reset,
        storage_path,
        db_file_path,
        log_tenant: String::from_str("default"),
        log_topic_namespace: String::from_str("default"),
        hnsw_cache_capacity: HNSW_CACHE_CAPACITY,
        enable_schema: true,
        min_records_for_invocation: MIN_RECORDS_FOR_INVOCATION,
    }
}

/// The version string this layer reports to the host.
pub fn version() -> (v: String)
    ensures
        v@ == "0.1.0"@,
{
    String::from_str("0.1.0")
}

} // verus!
