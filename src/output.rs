use vstd::prelude::*;

use crate::error::{ConfigError, ConfigField};
use crate::identifier::{sanitize_identifier, sanitized};
use crate::library::{
    library_options_of, LibraryOptions, RawLibraryOptions, RawTrustedTypes, TrustedTypes,
};
use crate::loading::{
    chunk_loading_of, hash_digest_of, hash_function_of, parse_chunk_loading, parse_hash_digest,
    parse_hash_function, parse_wasm_loading, wasm_loading_of, ChunkLoading, HashDigest,
    HashFunction, WasmLoading,
};
use crate::naming::{
    cross_origin_result, filename_result, CrossOriginLoading, NamingStrategy,
    RawCrossOriginLoading, RawFilename,
};

verus! {

/// Output settings as the host hands them over, before any check.
pub struct RawOutputOptions {
    pub path: String,
    pub clean: bool,
    pub public_path: String,
    pub asset_module_filename: String,
    pub wasm_loading: String,
    pub enabled_wasm_loading_types: Vec<String>,
    pub webassembly_module_filename: String,
    pub filename: RawFilename,
    pub chunk_filename: String,
    pub cross_origin_loading: RawCrossOriginLoading,
    pub css_filename: String,
    pub css_chunk_filename: String,
    pub hot_update_main_filename: String,
    pub hot_update_chunk_filename: String,
    pub hot_update_global: String,
    pub unique_name: String,
    pub chunk_loading_global: String,
    pub library: Option<RawLibraryOptions>,
    pub strict_module_error_handling: bool,
    pub enabled_library_types: Option<Vec<String>>,
    pub global_object: String,
    pub import_function_name: String,
    pub iife: bool,
    pub module: bool,
    pub chunk_loading: String,
    pub enabled_chunk_loading_types: Option<Vec<String>>,
    pub trusted_types: Option<RawTrustedTypes>,
    pub source_map_filename: String,
    pub hash_function: String,
    pub hash_digest: String,
    pub hash_digest_length: u32,
    pub hash_salt: Option<String>,
    pub async_chunks: bool,
    pub worker_chunk_loading: String,
    pub worker_wasm_loading: String,
    pub worker_public_path: String,
}

/// The checked output settings of one build session.
#[derive(Debug, Clone, PartialEq, Eq)]
pub struct OutputOptions {
    pub path: String,
    pub clean: bool,
    pub public_path: String,
    pub asset_module_filename: NamingStrategy,
    pub wasm_loading: WasmLoading,
    pub webassembly_module_filename: String,
    pub unique_name: String,
    pub chunk_loading: ChunkLoading,
    pub chunk_loading_global: String,
    pub filename: NamingStrategy,
    pub chunk_filename: NamingStrategy,
    pub cross_origin_loading: CrossOriginLoading,
    pub css_filename: NamingStrategy,
    pub css_chunk_filename: NamingStrategy,
    pub hot_update_main_filename: String,
    pub hot_update_chunk_filename: String,
    pub hot_update_global: String,
    pub library: Option<LibraryOptions>,
    pub strict_module_error_handling: bool,
    pub enabled_library_types: Option<Vec<String>>,
    pub global_object: String,
    pub import_function_name: String,
    pub iife: bool,
    pub module: bool,
    pub trusted_types: Option<TrustedTypes>,
    pub source_map_filename: String,
    pub hash_function: HashFunction,
    pub hash_digest: HashDigest,
    pub hash_digest_length: usize,
    pub hash_salt: Option<String>,
    pub async_chunks: bool,
    pub worker_chunk_loading: ChunkLoading,
    pub worker_wasm_loading: WasmLoading,
    pub worker_public_path: String,
}

/// The first setting, in the order they are checked, that is invalid, and why.
pub open spec fn first_config_error(raw: RawOutputOptions) -> Option<ConfigError> {
    if wasm_loading_of(raw.wasm_loading@) is None {
        Some(ConfigError::UnknownValue(ConfigField::WasmLoading))
    } else if chunk_loading_of(raw.chunk_loading@) is None {
        Some(ConfigError::UnknownValue(ConfigField::ChunkLoading))
    } else if filename_result(raw.filename) is Err {
        Some(filename_result(raw.filename)->Err_0)
    } else if cross_origin_result(raw.cross_origin_loading) is Err {
        Some(cross_origin_result(raw.cross_origin_loading)->Err_0)
    } else if hash_function_of(raw.hash_function@) is None {
        Some(ConfigError::UnknownValue(ConfigField::HashFunction))
    } else if hash_digest_of(raw.hash_digest@) is None {
        Some(ConfigError::UnknownValue(ConfigField::HashDigest))
    } else if chunk_loading_of(raw.worker_chunk_loading@) is None {
        Some(ConfigError::UnknownValue(ConfigField::WorkerChunkLoading))
    } else if wasm_loading_of(raw.worker_wasm_loading@) is None {
        Some(ConfigError::UnknownValue(ConfigField::WorkerWasmLoading))
    } else {
        None
    }
}

/// `o` holds what the valid raw settings `raw` stand for: each field carried
/// over, enumerations read, filename templates made static strategies, and the
/// chunk loading global sanitized into an identifier.
pub open spec fn options_of(raw: RawOutputOptions, o: OutputOptions) -> bool {
    &&& o.path == raw.path
    &&& o.clean == raw.clean
    &&& o.public_path == raw.public_path
    &&& o.asset_module_filename == NamingStrategy::Static(raw.asset_module_filename)
    &&& o.wasm_loading == wasm_loading_of(raw.wasm_loading@).unwrap()
    &&& o.webassembly_module_filename == raw.webassembly_module_filename
    &&& o.unique_name == raw.unique_name
    &&& o.chunk_loading == chunk_loading_of(raw.chunk_loading@).unwrap()
    &&& o.chunk_loading_global@ == sanitized(raw.chunk_loading_global@)
    &&& o.filename == filename_result(raw.filename)->Ok_0
    &&& o.chunk_filename == NamingStrategy::Static(raw.chunk_filename)
    &&& o.cross_origin_loading == cross_origin_result(raw.cross_origin_loading)->Ok_0
    &&& o.css_filename == NamingStrategy::Static(raw.css_filename)
    &&& o.css_chunk_filename == NamingStrategy::Static(raw.css_chunk_filename)
    &&& o.hot_update_main_filename == raw.hot_update_main_filename
    &&& o.hot_update_chunk_filename == raw.hot_update_chunk_filename
    &&& o.hot_update_global == raw.hot_update_global
    &&& o.library == match raw.library {
        Some(l) => Some(library_options_of(l)),
        None => None,
    }
    &&& o.strict_module_error_handling == raw.strict_module_error_handling
    &&& o.enabled_library_types == raw.enabled_library_types
    &&& o.global_object == raw.global_object
    &&& o.import_function_name == raw.import_function_name
    &&& o.iife == raw.iife
    &&& o.module == raw.module
    &&& o.trusted_types == match raw.trusted_types {
        Some(t) => Some(TrustedTypes { policy_name: t.policy_name }),
        None => None,
    }
    &&& o.source_map_filename == raw.source_map_filename
    &&& o.hash_function == hash_function_of(raw.hash_function@).unwrap()
    &&& o.hash_digest == hash_digest_of(raw.hash_digest@).unwrap()
    &&& o.hash_digest_length == raw.hash_digest_length as usize
    &&& o.hash_salt == raw.hash_salt
    &&& o.async_chunks == raw.async_chunks
    &&& o.worker_chunk_loading == chunk_loading_of(raw.worker_chunk_loading@).unwrap()
    &&& o.worker_wasm_loading == wasm_loading_of(raw.worker_wasm_loading@).unwrap()
    &&& o.worker_public_path == raw.worker_public_path
}

impl RawOutputOptions {
    /// Checks the raw settings and builds the output options of a session, or
    /// names the first invalid setting.
    pub fn apply(self) -> (r: Result<OutputOptions, ConfigError>)
        ensures
            r is Ok <==> first_config_error(self) is None,
            r matches Err(e) ==> first_config_error(self) == Some(e),
            r matches Ok(o) ==> options_of(self, o),
    {
        let wasm_loading = match parse_wasm_loading(self.wasm_loading.as_str(), ConfigField::WasmLoading) {
            Ok(w) => w,
            Err(e) => return Err(e),
        };
        let chunk_loading = match parse_chunk_loading(self.chunk_loading.as_str(), ConfigField::ChunkLoading) {
            Ok(c) => c,
            Err(e) => return Err(e),
        };
        let filename = match self.filename.normalize() {
            Ok(f) => f,
            Err(e) => return Err(e),
        };
        let cross_origin_loading = match self.cross_origin_loading.normalize() {
            Ok(c) => c,
            Err(e) => return Err(e),
        };
        let hash_function = match parse_hash_function(self.hash_function.as_str()) {
            Ok(h) => h,
            Err(e) => return Err(e),
        };
        let hash_digest = match parse_hash_digest(self.hash_digest.as_str()) {
            Ok(h) => h,
            Err(e) => return Err(e),
        };
        let worker_chunk_loading = match parse_chunk_loading(
            self.worker_chunk_loading.as_str(),
            ConfigField::WorkerChunkLoading,
        ) {
            Ok(c) => c,
            Err(e) => return Err(e),
        };
        let worker_wasm_loading = match parse_wasm_loading(
            self.worker_wasm_loading.as_str(),
            ConfigField::WorkerWasmLoading,
        ) {
            Ok(w) => w,
            Err(e) => return Err(e),
        };
        let chunk_loading_global = sanitize_identifier(self.chunk_loading_global.as_str());
        let library = match self.library {
            Some(l) => Some(LibraryOptions::from(l)),
            None => None,
        };
        let trusted_types = match self.trusted_types {
            Some(t) => Some(TrustedTypes::from(t)),
            None => None,
        };
        Ok(OutputOptions {
            path: self.path,
            clean: self.clean,
            public_path: self.public_path,
            asset_module_filename: NamingStrategy::Static(self.asset_module_filename),
            wasm_loading,
            webassembly_module_filename: self.webassembly_module_filename,
            unique_name: self.unique_name,
            chunk_loading,
            chunk_loading_global,
            filename,
            chunk_filename: NamingStrategy::Static(self.chunk_filename),
            cross_origin_loading,
            css_filename: NamingStrategy::Static(self.css_filename),
            css_chunk_filename: NamingStrategy::Static(self.css_chunk_filename),
            hot_update_main_filename: self.hot_update_main_filename,
            hot_update_chunk_filename: self.hot_update_chunk_filename,
            hot_update_global: self.hot_update_global,
            library,
            strict_module_error_handling: self.strict_module_error_handling,
            enabled_library_types: self.enabled_library_types,
            global_object: self.global_object,
            import_function_name: self.import_function_name,
            iife: self.iife,
            module: self.module,
            trusted_types,
            source_map_filename: self.source_map_filename,
            hash_function,
            hash_digest,
            hash_digest_length: self.hash_digest_length as usize,
            hash_salt: self.hash_salt,
            async_chunks: self.async_chunks,
            worker_chunk_loading,
            worker_wasm_loading,
            worker_public_path: self.worker_public_path,
        })
    }
}

} // verus!
