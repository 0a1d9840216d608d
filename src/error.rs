use vstd::prelude::*;

verus! {

/// The output setting that a configuration error is about.
#[derive(Debug, Clone, Copy, PartialEq, Eq, Structural)]
pub enum ConfigField {
    Filename,
    CrossOriginLoading,
    WasmLoading,
    ChunkLoading,
    WorkerChunkLoading,
    WorkerWasmLoading,
    HashFunction,
    HashDigest,
}

/// Why raw output settings were rejected; each names the first field at fault.
#[derive(Debug, Clone, Copy, PartialEq, Eq, Structural)]
pub enum ConfigError {
    /// The discriminant selects a payload that is absent.
    MissingPayload(ConfigField),
    /// The discriminant is none of those the field knows.
    UnknownDiscriminant(ConfigField),
    /// An enumerated value is outside the field's allow-list.
    UnknownValue(ConfigField),
}

/// Why a dynamic name could not be resolved.
#[derive(Debug, Clone, PartialEq, Eq)]
pub enum BridgeError {
    /// The host function failed while serving this request.
    HostFailed { request: usize, message: String },
    /// The session was torn down while this request was pending.
    Cancelled { request: usize },
    /// A call was attempted after the session was torn down.
    Closed,
    /// The request table can take no more entries.
    Exhausted,
}

} // verus!
