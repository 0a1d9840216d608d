use vstd::prelude::*;
use vstd::std_specs::convert::FromSpec;

verus! {

pub struct RawTrustedTypes {
    pub policy_name: Option<String>,
}

/// Trusted Types settings of the emitted runtime.
#[derive(Debug, Clone, PartialEq, Eq)]
pub struct TrustedTypes {
    pub policy_name: Option<String>,
}

impl From<RawTrustedTypes> for TrustedTypes {
    fn from(value: RawTrustedTypes) -> (r: Self) {
        TrustedTypes { policy_name: value.policy_name }
    }
}

impl vstd::std_specs::convert::FromSpecImpl<RawTrustedTypes> for TrustedTypes {
    open spec fn obeys_from_spec() -> bool {
        true
    }

    open spec fn from_spec(value: RawTrustedTypes) -> Self {
        TrustedTypes { policy_name: value.policy_name }
    }
}

pub struct RawLibraryName {
    pub amd: Option<String>,
    pub commonjs: Option<String>,
    pub root: Option<Vec<String>>,
}

/// The names a library is exposed under, per module system.
#[derive(Debug, Clone, PartialEq, Eq)]
pub struct LibraryName {
    pub amd: Option<String>,
    pub commonjs: Option<String>,
    pub root: Option<Vec<String>>,
}

impl From<RawLibraryName> for LibraryName {
    fn from(value: RawLibraryName) -> (r: Self) {
        LibraryName { amd: value.amd, commonjs: value.commonjs, root: value.root }
    }
}

impl vstd::std_specs::convert::FromSpecImpl<RawLibraryName> for LibraryName {
    open spec fn obeys_from_spec() -> bool {
        true
    }

    open spec fn from_spec(value: RawLibraryName) -> Self {
        LibraryName { amd: value.amd, commonjs: value.commonjs, root: value.root }
    }
}

pub struct RawLibraryAuxiliaryComment {
    pub root: Option<String>,
    pub commonjs: Option<String>,
    pub commonjs2: Option<String>,
    pub amd: Option<String>,
}

/// Comments put in the library wrapper, per module system.
#[derive(Debug, Clone, PartialEq, Eq)]
pub struct LibraryAuxiliaryComment {
    pub root: Option<String>,
    pub commonjs: Option<String>,
    pub commonjs2: Option<String>,
    pub amd: Option<String>,
}

impl From<RawLibraryAuxiliaryComment> for LibraryAuxiliaryComment {
    fn from(value: RawLibraryAuxiliaryComment) -> (r: Self) {
        LibraryAuxiliaryComment {
            root: value.root,
            commonjs: value.commonjs,
            commonjs2: value.commonjs2,
            amd: value.amd,
        }
    }
}

impl vstd::std_specs::convert::FromSpecImpl<RawLibraryAuxiliaryComment> for LibraryAuxiliaryComment {
    open spec fn obeys_from_spec() -> bool {
        true
    }

    open spec fn from_spec(value: RawLibraryAuxiliaryComment) -> Self {
        LibraryAuxiliaryComment {
            root: value.root,
            commonjs: value.commonjs,
            commonjs2: value.commonjs2,
            amd: value.amd,
        }
    }
}

pub struct RawLibraryOptions {
    pub name: Option<RawLibraryName>,
    pub export: Option<Vec<String>>,
    pub library_type: String,
    pub umd_named_define: Option<bool>,
    pub auxiliary_comment: Option<RawLibraryAuxiliaryComment>,
}

/// How the bundle is exposed as a library.
#[derive(Debug, Clone, PartialEq, Eq)]
pub struct LibraryOptions {
    pub name: Option<LibraryName>,
    pub export: Option<Vec<String>>,
    pub library_type: String,
    pub umd_named_define: Option<bool>,
    pub auxiliary_comment: Option<LibraryAuxiliaryComment>,
}

pub open spec fn library_options_of(value: RawLibraryOptions) -> LibraryOptions {
    LibraryOptions {
        name: match value.name {
            Some(n) => Some(LibraryName::from_spec(n)),
            None => None,
        },
        export: value.export,
        library_type: value.library_type,
        umd_named_define: value.umd_named_define,
        auxiliary_comment: match value.auxiliary_comment {
            Some(c) => Some(LibraryAuxiliaryComment::from_spec(c)),
            None => None,
        },
    }
}

impl From<RawLibraryOptions> for LibraryOptions {
    fn from(value: RawLibraryOptions) -> (r: Self) {
        let name = match value.name {
            Some(n) => Some(LibraryName::from(n)),
            None => None,
        };
        let auxiliary_comment = match value.auxiliary_comment {
            Some(c) => Some(LibraryAuxiliaryComment::from(c)),
            None => None,
        };
        LibraryOptions {
            name,
            export: value.export,
            library_type: value.library_type,
            umd_named_define: value.umd_named_define,
            auxiliary_comment,
        }
    }
}

impl vstd::std_specs::convert::FromSpecImpl<RawLibraryOptions> for LibraryOptions {
    open spec fn obeys_from_spec() -> bool {
        true
    }

    open spec fn from_spec(value: RawLibraryOptions) -> Self {
        library_options_of(value)
    }
}

} // verus!
