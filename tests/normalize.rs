use rspack_binding_options::error::{ConfigError, ConfigField};
use rspack_binding_options::identifier::{sanitize_identifier, to_identifier};
use rspack_binding_options::library::{
    LibraryAuxiliaryComment, LibraryName, LibraryOptions, RawLibraryAuxiliaryComment,
    RawLibraryName, RawLibraryOptions, RawTrustedTypes, TrustedTypes,
};
use rspack_binding_options::loading::{
    parse_chunk_loading, parse_hash_digest, parse_hash_function, parse_wasm_loading, ChunkLoading,
    ChunkLoadingType, HashDigest, HashFunction, WasmLoading, WasmLoadingType,
};
use rspack_binding_options::naming::{
    CallbackHandle, CrossOriginLoading, NamingStrategy, RawCrossOriginLoading, RawFilename,
};
use rspack_binding_options::output::RawOutputOptions;
use rspack_binding_options::text::text_is;

fn filename(kind: &str, s: Option<&str>, f: Option<u64>) -> RawFilename {
    RawFilename { kind: kind.to_string(), string_payload: s.map(|v| v.to_string()), fn_payload: f }
}

fn cross_origin(kind: &str, s: Option<&str>, b: Option<bool>) -> RawCrossOriginLoading {
    RawCrossOriginLoading {
        kind: kind.to_string(),
        string_payload: s.map(|v| v.to_string()),
        bool_payload: b,
    }
}

#[test]
fn static_filename_keeps_template() {
    let r = filename("string", Some("[name].[contenthash].js"), None).normalize();
    assert_eq!(r, Ok(NamingStrategy::Static("[name].[contenthash].js".to_string())));
}

#[test]
fn function_filename_wraps_handle() {
    let r = filename("function", None, Some(7)).normalize();
    assert_eq!(r, Ok(NamingStrategy::Dynamic(CallbackHandle { id: 7 })));
}

#[test]
fn filename_missing_string_payload() {
    let r = filename("string", None, Some(3)).normalize();
    assert_eq!(r, Err(ConfigError::MissingPayload(ConfigField::Filename)));
}

#[test]
fn filename_missing_fn_payload() {
    let r = filename("function", Some("a.js"), None).normalize();
    assert_eq!(r, Err(ConfigError::MissingPayload(ConfigField::Filename)));
}

#[test]
fn filename_unknown_discriminant() {
    let r = filename("bool", Some("a.js"), Some(1)).normalize();
    assert_eq!(r, Err(ConfigError::UnknownDiscriminant(ConfigField::Filename)));
}

#[test]
fn cross_origin_bool_disables() {
    assert_eq!(cross_origin("bool", None, None).normalize(), Ok(CrossOriginLoading::Disable));
    assert_eq!(cross_origin("bool", None, Some(false)).normalize(), Ok(CrossOriginLoading::Disable));
}

#[test]
fn cross_origin_string_enables() {
    let r = cross_origin("string", Some("anonymous"), None).normalize();
    assert_eq!(r, Ok(CrossOriginLoading::Enable("anonymous".to_string())));
}

#[test]
fn cross_origin_string_without_payload_fails() {
    let r = cross_origin("string", None, None).normalize();
    assert_eq!(r, Err(ConfigError::MissingPayload(ConfigField::CrossOriginLoading)));
}

#[test]
fn cross_origin_unknown_discriminant() {
    let r = cross_origin("number", Some("anonymous"), None).normalize();
    assert_eq!(r, Err(ConfigError::UnknownDiscriminant(ConfigField::CrossOriginLoading)));
}

#[test]
fn identifier_examples() {
    assert_eq!(to_identifier("webpackChunk"), "webpackChunk");
    assert_eq!(to_identifier("webpackChunk my-app"), "webpackChunk_my_app");
    assert_eq!(to_identifier("123abc"), "_123abc");
    assert_eq!(to_identifier("-x"), "_x");
    assert_eq!(to_identifier("a--__b"), "a_b");
    assert_eq!(to_identifier("$é"), "$_");
    assert_eq!(to_identifier(""), "");
}

#[test]
fn sanitize_is_never_empty() {
    assert_eq!(sanitize_identifier(""), "_");
    assert_eq!(sanitize_identifier("@@"), "_");
    assert_eq!(sanitize_identifier("9lives"), "_9lives");
}

#[test]
fn sanitize_twice_is_sanitize_once() {
    for s in ["", "a b", "9", "__x__", "webpackChunk@scope/pkg", "ünï", "$ok", "-", "a-"] {
        let once = sanitize_identifier(s);
        assert_eq!(sanitize_identifier(&once), once);
        let first = once.chars().next().unwrap();
        assert!(!first.is_ascii_digit());
    }
}

#[test]
fn text_comparison() {
    assert!(text_is("jsonp", "jsonp"));
    assert!(!text_is("jsonp", "json"));
    assert!(!text_is("", "x"));
    assert!(text_is("", ""));
}

#[test]
fn allow_listed_values() {
    assert_eq!(parse_chunk_loading("false", ConfigField::ChunkLoading), Ok(ChunkLoading::Disable));
    assert_eq!(
        parse_chunk_loading("import-scripts", ConfigField::WorkerChunkLoading),
        Ok(ChunkLoading::Enable(ChunkLoadingType::ImportScripts))
    );
    assert_eq!(
        parse_chunk_loading("webworker", ConfigField::ChunkLoading),
        Err(ConfigError::UnknownValue(ConfigField::ChunkLoading))
    );
    assert_eq!(
        parse_wasm_loading("async-node-module", ConfigField::WasmLoading),
        Ok(WasmLoading::Enable(WasmLoadingType::AsyncNodeModule))
    );
    assert_eq!(
        parse_wasm_loading("", ConfigField::WorkerWasmLoading),
        Err(ConfigError::UnknownValue(ConfigField::WorkerWasmLoading))
    );
    assert_eq!(parse_hash_function("md4"), Ok(HashFunction::Md4));
    assert_eq!(parse_hash_function("sha256"), Err(ConfigError::UnknownValue(ConfigField::HashFunction)));
    assert_eq!(parse_hash_digest("hex"), Ok(HashDigest::Hex));
    assert_eq!(parse_hash_digest("base64"), Err(ConfigError::UnknownValue(ConfigField::HashDigest)));
}

#[test]
fn library_options_carry_over() {
    let raw = RawLibraryOptions {
        name: Some(RawLibraryName {
            amd: Some("amdName".to_string()),
            commonjs: None,
            root: Some(vec!["My".to_string(), "Lib".to_string()]),
        }),
        export: Some(vec!["default".to_string()]),
        library_type: "umd".to_string(),
        umd_named_define: Some(true),
        auxiliary_comment: Some(RawLibraryAuxiliaryComment {
            root: Some("r".to_string()),
            commonjs: None,
            commonjs2: Some("c2".to_string()),
            amd: None,
        }),
    };
    let lib = LibraryOptions::from(raw);
    assert_eq!(
        lib,
        LibraryOptions {
            name: Some(LibraryName {
                amd: Some("amdName".to_string()),
                commonjs: None,
                root: Some(vec!["My".to_string(), "Lib".to_string()]),
            }),
            export: Some(vec!["default".to_string()]),
            library_type: "umd".to_string(),
            umd_named_define: Some(true),
            auxiliary_comment: Some(LibraryAuxiliaryComment {
                root: Some("r".to_string()),
                commonjs: None,
                commonjs2: Some("c2".to_string()),
                amd: None,
            }),
        }
    );
    let tt = TrustedTypes::from(RawTrustedTypes { policy_name: Some("p".to_string()) });
    assert_eq!(tt.policy_name, Some("p".to_string()));
}

fn raw_options() -> RawOutputOptions {
    RawOutputOptions {
        path: "/dist".to_string(),
        clean: true,
        public_path: "auto".to_string(),
        asset_module_filename: "[hash][ext]".to_string(),
        wasm_loading: "fetch".to_string(),
        enabled_wasm_loading_types: vec!["fetch".to_string()],
        webassembly_module_filename: "[hash].module.wasm".to_string(),
        filename: filename("string", Some("[name].js"), None),
        chunk_filename: "[id].js".to_string(),
        cross_origin_loading: cross_origin("bool", None, Some(false)),
        css_filename: "[name].css".to_string(),
        css_chunk_filename: "[id].css".to_string(),
        hot_update_main_filename: "[runtime].[fullhash].hot-update.json".to_string(),
        hot_update_chunk_filename: "[id].[fullhash].hot-update.js".to_string(),
        hot_update_global: "webpackHotUpdate".to_string(),
        unique_name: "my-app".to_string(),
        chunk_loading_global: "webpackChunkmy-app".to_string(),
        library: None,
        strict_module_error_handling: false,
        enabled_library_types: None,
        global_object: "self".to_string(),
        import_function_name: "import".to_string(),
        iife: true,
        module: false,
        chunk_loading: "jsonp".to_string(),
        enabled_chunk_loading_types: None,
        trusted_types: Some(RawTrustedTypes { policy_name: None }),
        source_map_filename: "[file].map".to_string(),
        hash_function: "xxhash64".to_string(),
        hash_digest: "hex".to_string(),
        hash_digest_length: 16,
        hash_salt: None,
        async_chunks: true,
        worker_chunk_loading: "import-scripts".to_string(),
        worker_wasm_loading: "false".to_string(),
        worker_public_path: "".to_string(),
    }
}

#[test]
fn apply_builds_options() {
    let o = raw_options().apply().unwrap();
    assert_eq!(o.path, "/dist");
    assert_eq!(o.filename, NamingStrategy::Static("[name].js".to_string()));
    assert_eq!(o.chunk_filename, NamingStrategy::Static("[id].js".to_string()));
    assert_eq!(o.chunk_loading_global, "webpackChunkmy_app");
    assert_eq!(o.chunk_loading, ChunkLoading::Enable(ChunkLoadingType::Jsonp));
    assert_eq!(o.worker_chunk_loading, ChunkLoading::Enable(ChunkLoadingType::ImportScripts));
    assert_eq!(o.wasm_loading, WasmLoading::Enable(WasmLoadingType::Fetch));
    assert_eq!(o.worker_wasm_loading, WasmLoading::Disable);
    assert_eq!(o.cross_origin_loading, CrossOriginLoading::Disable);
    assert_eq!(o.hash_function, HashFunction::Xxhash64);
    assert_eq!(o.hash_digest, HashDigest::Hex);
    assert_eq!(o.hash_digest_length, 16);
    assert_eq!(o.trusted_types, Some(TrustedTypes { policy_name: None }));
    assert_eq!(o.unique_name, "my-app");
}

#[test]
fn apply_reports_first_bad_field() {
    let mut raw = raw_options();
    raw.hash_function = "sha1".to_string();
    raw.filename = filename("function", None, None);
    assert_eq!(raw.apply(), Err(ConfigError::MissingPayload(ConfigField::Filename)));

    let mut raw = raw_options();
    raw.hash_digest = "base64".to_string();
    raw.worker_wasm_loading = "nope".to_string();
    assert_eq!(raw.apply(), Err(ConfigError::UnknownValue(ConfigField::HashDigest)));

    let mut raw = raw_options();
    raw.wasm_loading = "wasm".to_string();
    raw.chunk_loading = "x".to_string();
    assert_eq!(raw.apply(), Err(ConfigError::UnknownValue(ConfigField::WasmLoading)));

    let mut raw = raw_options();
    raw.cross_origin_loading = cross_origin("string", None, None);
    assert_eq!(raw.apply(), Err(ConfigError::MissingPayload(ConfigField::CrossOriginLoading)));

    let mut raw = raw_options();
    raw.worker_chunk_loading = "?".to_string();
    assert_eq!(raw.apply(), Err(ConfigError::UnknownValue(ConfigField::WorkerChunkLoading)));
}

#[test]
fn apply_with_dynamic_filename() {
    let mut raw = raw_options();
    raw.filename = filename("function", None, Some(42));
    raw.chunk_loading_global = "".to_string();
    let o = raw.apply().unwrap();
    assert_eq!(o.filename, NamingStrategy::Dynamic(CallbackHandle { id: 42 }));
    assert_eq!(o.chunk_loading_global, "_");
}
