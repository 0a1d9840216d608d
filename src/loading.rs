use vstd::prelude::*;

use crate::error::{ConfigError, ConfigField};
use crate::text::text_is;

verus! {

/// How chunks are loaded when loading is on.
#[derive(Debug, Clone, Copy, PartialEq, Eq, Structural)]
pub enum ChunkLoadingType {
    Jsonp,
    ImportScripts,
    Require,
    AsyncNode,
    Import,
}

#[derive(Debug, Clone, Copy, PartialEq, Eq, Structural)]
pub enum ChunkLoading {
    Enable(ChunkLoadingType),
    Disable,
}

/// How WebAssembly modules are loaded when loading is on.
#[derive(Debug, Clone, Copy, PartialEq, Eq, Structural)]
pub enum WasmLoadingType {
    Fetch,
    AsyncNode,
    AsyncNodeModule,
}

#[derive(Debug, Clone, Copy, PartialEq, Eq, Structural)]
pub enum WasmLoading {
    Enable(WasmLoadingType),
    Disable,
}

#[derive(Debug, Clone, Copy, PartialEq, Eq, Structural)]
pub enum HashFunction {
    Xxhash64,
    Md4,
}

#[derive(Debug, Clone, Copy, PartialEq, Eq, Structural)]
pub enum HashDigest {
    Hex,
}

/// The value an allow-listed setting takes, or the error that names its field.
pub open spec fn allowed<T>(v: Option<T>, field: ConfigField) -> Result<T, ConfigError> {
    match v {
        Some(t) => Ok(t),
        None => Err(ConfigError::UnknownValue(field)),
    }
}

pub open spec fn chunk_loading_of(s: Seq<char>) -> Option<ChunkLoading> {
    if s == "false"@ {
        Some(ChunkLoading::Disable)
    } else if s == "jsonp"@ {
        Some(ChunkLoading::Enable(ChunkLoadingType::Jsonp))
    } else if s == "import-scripts"@ {
        Some(ChunkLoading::Enable(ChunkLoadingType::ImportScripts))
    } else if s == "require"@ {
        Some(ChunkLoading::Enable(ChunkLoadingType::Require))
    } else if s == "async-node"@ {
        Some(ChunkLoading::Enable(ChunkLoadingType::AsyncNode))
    } else if s == "import"@ {
        Some(ChunkLoading::Enable(ChunkLoadingType::Import))
    } else {
        None
    }
}

pub open spec fn wasm_loading_of(s: Seq<char>) -> Option<WasmLoading> {
    if s == "false"@ {
        Some(WasmLoading::Disable)
    } else if s == "fetch"@ {
        Some(WasmLoading::Enable(WasmLoadingType::Fetch))
    } else if s == "async-node"@ {
        Some(WasmLoading::Enable(WasmLoadingType::AsyncNode))
    } else if s == "async-node-module"@ {
        Some(WasmLoading::Enable(WasmLoadingType::AsyncNodeModule))
    } else {
        None
    }
}

pub open spec fn hash_function_of(s: Seq<char>) -> Option<HashFunction> {
    if s == "xxhash64"@ {
        Some(HashFunction::Xxhash64)
    } else if s == "md4"@ {
        Some(HashFunction::Md4)
    } else {
        None
    }
}

pub open spec fn hash_digest_of(s: Seq<char>) -> Option<HashDigest> {
    if s == "hex"@ {
        Some(HashDigest::Hex)
    } else {
        None
    }
}

/// Reads a chunk loading setting: `"false"` or one of the known loading types.
pub fn parse_chunk_loading(s: &str, field: ConfigField) -> (r: Result<ChunkLoading, ConfigError>)
    ensures
        r == allowed(chunk_loading_of(s@), field),
{
    if text_is(s, "false") {
        Ok(ChunkLoading::Disable)
    } else if text_is(s, "jsonp") {
        Ok(ChunkLoading::Enable(ChunkLoadingType::Jsonp))
    } else if text_is(s, "import-scripts") {
        Ok(ChunkLoading::Enable(ChunkLoadingType::ImportScripts))
    } else if text_is(s, "require") {
        Ok(ChunkLoading::Enable(ChunkLoadingType::Require))
    } else if text_is(s, "async-node") {
        Ok(ChunkLoading::Enable(ChunkLoadingType::AsyncNode))
    } else if text_is(s, "import") {
        Ok(ChunkLoading::Enable(ChunkLoadingType::Import))
    } else {
        Err(ConfigError::UnknownValue(field))
    }
}

/// Reads a WebAssembly loading setting: `"false"` or one of the known loading types.
pub fn parse_wasm_loading(s: &str, field: ConfigField) -> (r: Result<WasmLoading, ConfigError>)
    ensures
        r == allowed(wasm_loading_of(s@), field),
{
    if text_is(s, "false") {
        Ok(WasmLoading::Disable)
    } else if text_is(s, "fetch") {
        Ok(WasmLoading::Enable(WasmLoadingType::Fetch))
    } else if text_is(s, "async-node") {
        Ok(WasmLoading::Enable(WasmLoadingType::AsyncNode))
    } else if text_is(s, "async-node-module") {
        Ok(WasmLoading::Enable(WasmLoadingType::AsyncNodeModule))
    } else {
        Err(ConfigError::UnknownValue(field))
    }
}

pub fn parse_hash_function(s: &str) -> (r: Result<HashFunction, ConfigError>)
    ensures
        r == allowed(hash_function_of(s@), ConfigField::HashFunction),
{
    if text_is(s, "xxhash64") {
        Ok(HashFunction::Xxhash64)
    } else if text_is(s, "md4") {
        Ok(HashFunction::Md4)
    } else {
        Err(ConfigError::UnknownValue(ConfigField::HashFunction))
    }
}

pub fn parse_hash_digest(s: &str) -> (r: Result<HashDigest, ConfigError>)
    ensures
        r == allowed(hash_digest_of(s@), ConfigField::HashDigest),
{
    if text_is(s, "hex") {
        Ok(HashDigest::Hex)
    } else {
        Err(ConfigError::UnknownValue(ConfigField::HashDigest))
    }
}

} // verus!
