use vstd::prelude::*;

use crate::error::{ConfigError, ConfigField};
use crate::text::text_is;

verus! {

/// A registered host function, shared by every worker that resolves a name with it.
#[derive(Debug, Clone, Copy, PartialEq, Eq, Structural)]
pub struct CallbackHandle {
    pub id: u64,
}

/// How an output file is named: a template kept verbatim, or a host function.
#[derive(Debug, Clone, PartialEq, Eq)]
pub enum NamingStrategy {
    Static(String),
    Dynamic(CallbackHandle),
}

/// A filename setting as the host hands it over: a discriminant (`"string"` or
/// `"function"`) and the payloads, of which the discriminant selects one.
/// A host function arrives as the token it was registered under.
pub struct RawFilename {
    pub kind: String,
    pub string_payload: Option<String>,
    pub fn_payload: Option<u64>,
}

/// What a dynamic name is computed from.
#[derive(Debug, Clone, PartialEq, Eq)]
pub struct RawFilenameFnCtx {
    pub hash: String,
}

/// The strategy a raw filename setting stands for, or why it stands for none.
pub open spec fn filename_result(raw: RawFilename) -> Result<NamingStrategy, ConfigError> {
    if raw.kind@ == "string"@ {
        match raw.string_payload {
            Some(s) => Ok(NamingStrategy::Static(s)),
            None => Err(ConfigError::MissingPayload(ConfigField::Filename)),
        }
    } else if raw.kind@ == "function"@ {
        match raw.fn_payload {
            Some(t) => Ok(NamingStrategy::Dynamic(CallbackHandle { id: t })),
            None => Err(ConfigError::MissingPayload(ConfigField::Filename)),
        }
    } else {
        Err(ConfigError::UnknownDiscriminant(ConfigField::Filename))
    }
}

impl RawFilename {
    /// Checks the discriminant against its payload and builds the strategy.
    pub fn normalize(self) -> (r: Result<NamingStrategy, ConfigError>)
        ensures
            r == filename_result(self),
    {
        if text_is(self.kind.as_str(), "string") {
            match self.string_payload {
                Some(s) => Ok(NamingStrategy::Static(s)),
                None => Err(ConfigError::MissingPayload(ConfigField::Filename)),
            }
        } else if text_is(self.kind.as_str(), "function") {
            match self.fn_payload {
                Some(t) => Ok(NamingStrategy::Dynamic(CallbackHandle { id: t })),
                None => Err(ConfigError::MissingPayload(ConfigField::Filename)),
            }
        } else {
            Err(ConfigError::UnknownDiscriminant(ConfigField::Filename))
        }
    }
}

/// A filename setting with the `"string"` discriminant is accepted exactly when
/// its string payload is present, and then names files by that template; one
/// with `"function"` exactly when its function payload is present, and then
/// names them through that function. Any other discriminant is rejected.
pub proof fn lemma_filename_discriminant(raw: RawFilename)
    ensures
        raw.kind@ == "string"@ ==> (filename_result(raw) is Ok <==> raw.string_payload is Some),
        raw.kind@ == "string"@ && raw.string_payload is Some ==> filename_result(raw) == Ok::<
            NamingStrategy,
            ConfigError,
        >(NamingStrategy::Static(raw.string_payload.unwrap())),
        raw.kind@ == "function"@ ==> (filename_result(raw) is Ok <==> raw.fn_payload is Some),
        raw.kind@ == "function"@ && raw.fn_payload is Some ==> filename_result(raw) == Ok::<
            NamingStrategy,
            ConfigError,
        >(NamingStrategy::Dynamic(CallbackHandle { id: raw.fn_payload.unwrap() })),
        raw.kind@ != "string"@ && raw.kind@ != "function"@ ==> filename_result(raw) == Err::<
            NamingStrategy,
            ConfigError,
        >(ConfigError::UnknownDiscriminant(ConfigField::Filename)),
{
    reveal_strlit("string");
    reveal_strlit("function");
    assert("function"@[0] != "string"@[0]);
}

/// Whether cross-origin script loading is turned on, and with which attribute value.
#[derive(Debug, Clone, PartialEq, Eq)]
pub enum CrossOriginLoading {
    Disable,
    Enable(String),
}

/// A cross-origin setting as the host hands it over: a discriminant (`"bool"`
/// or `"string"`) and the payloads. `"bool"` stands for the only boolean the
/// setting takes, `false`.
pub struct RawCrossOriginLoading {
    pub kind: String,
    pub string_payload: Option<String>,
    pub bool_payload: Option<bool>,
}

/// The cross-origin loading a raw setting stands for, or why it stands for none.
pub open spec fn cross_origin_result(raw: RawCrossOriginLoading) -> Result<
    CrossOriginLoading,
    ConfigError,
> {
    if raw.kind@ == "string"@ {
        match raw.string_payload {
            Some(s) => Ok(CrossOriginLoading::Enable(s)),
            None => Err(ConfigError::MissingPayload(ConfigField::CrossOriginLoading)),
        }
    } else if raw.kind@ == "bool"@ {
        Ok(CrossOriginLoading::Disable)
    } else {
        Err(ConfigError::UnknownDiscriminant(ConfigField::CrossOriginLoading))
    }
}

impl RawCrossOriginLoading {
    /// Checks the discriminant against its payload and builds the setting.
    pub fn normalize(self) -> (r: Result<CrossOriginLoading, ConfigError>)
        ensures
            r == cross_origin_result(self),
    {
        if text_is(self.kind.as_str(), "string") {
            match self.string_payload {
                Some(s) => Ok(CrossOriginLoading::Enable(s)),
                None => Err(ConfigError::MissingPayload(ConfigField::CrossOriginLoading)),
            }
        } else if text_is(self.kind.as_str(), "bool") {
            Ok(CrossOriginLoading::Disable)
        } else {
            Err(ConfigError::UnknownDiscriminant(ConfigField::CrossOriginLoading))
        }
    }
}

/// A cross-origin setting with the `"string"` discriminant is accepted exactly
/// when its string payload is present, and enables loading with that value; one
/// with `"bool"` disables it. Any other discriminant is rejected.
pub proof fn lemma_cross_origin_discriminant(raw: RawCrossOriginLoading)
    ensures
        raw.kind@ == "string"@ ==> (cross_origin_result(raw) is Ok <==> raw.string_payload is Some),
        raw.kind@ == "string"@ && raw.string_payload is Some ==> cross_origin_result(raw) == Ok::<
            CrossOriginLoading,
            ConfigError,
        >(CrossOriginLoading::Enable(raw.string_payload.unwrap())),
        raw.kind@ == "bool"@ ==> cross_origin_result(raw) == Ok::<CrossOriginLoading, ConfigError>(
            CrossOriginLoading::Disable,
        ),
        raw.kind@ != "string"@ && raw.kind@ != "bool"@ ==> cross_origin_result(raw) == Err::<
            CrossOriginLoading,
            ConfigError,
        >(ConfigError::UnknownDiscriminant(ConfigField::CrossOriginLoading)),
{
    reveal_strlit("string");
    reveal_strlit("bool");
    assert("bool"@[0] != "string"@[0]);
}

} // verus!
