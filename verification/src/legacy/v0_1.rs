//! Schema version 0.1: the role of a function is four flags, and each
//! parameter carries the serialization of its own type.

use crate::abi::{AbiMetadataView, AbiTypeView, BuildInfo};
use std::collections::HashMap;
use vstd::prelude::*;

verus! {

/// The schema version that documents of this shape carry.
pub const SCHEMA_VERSION: &'static str = "0.1.0";

/// Contract ABI.
#[derive(Clone, Debug, PartialEq)]
pub struct AbiRoot {
    /// Semver of the ABI schema format.
    pub schema_version: String,
    /// Metadata information about the contract.
    pub metadata: AbiMetadata,
    /// Core ABI information (functions and types).
    pub body: AbiBody,
}

/// Who wrote a contract and how it was built.
#[derive(Clone, Debug, PartialEq, Eq, Default)]
pub struct AbiMetadata {
    pub name: Option<String>,
    pub version: Option<String>,
    pub authors: Vec<String>,
    pub build: Option<BuildInfo>,
    pub wasm_hash: Option<String>,
    pub other: HashMap<String, String>,
}

/// Core ABI information.
#[derive(Clone, Debug, PartialEq)]
pub struct AbiBody {
    /// ABIs of all contract's functions.
    pub functions: Vec<AbiFunction>,
    /// Root JSON Schema containing all types referenced in the functions.
    pub root_schema: schemars::schema::RootSchema,
}

/// ABI of a single function.
#[derive(Clone, Debug, PartialEq)]
pub struct AbiFunction {
    pub name: String,
    /// Human-readable documentation parsed from the source file.
    pub doc: Option<String>,
    /// Whether function does not modify the state.
    pub is_view: bool,
    /// Whether function can be used to initialize the state.
    pub is_init: bool,
    /// Whether function is accepting $NEAR.
    pub is_payable: bool,
    /// Whether function can only accept calls from self (current account).
    pub is_private: bool,
    /// Type identifiers of the function parameters.
    pub params: Vec<AbiParameter>,
    /// Type identifiers of the callbacks of the function.
    pub callbacks: Vec<AbiType>,
    /// Type identifier of the vararg callbacks of the function.
    pub callbacks_vec: Option<AbiType>,
    /// Return type identifier.
    pub result: Option<AbiType>,
}

/// Information about a single named function parameter.
#[derive(Clone, Debug, PartialEq)]
pub struct AbiParameter {
    /// Parameter name (e.g. `p1` in `fn foo(p1: u32) {}`).
    pub name: String,
    /// The type of the parameter, under its serialization.
    pub typ: AbiType,
}

/// Information about a single type (e.g. return type).
#[allow(inconsistent_fields)]
#[derive(Clone, Debug, PartialEq)]
pub enum AbiType {
    Json { type_schema: schemars::schema::Schema },
    Borsh { type_schema: borsh::schema::BorshSchemaContainer },
}

/// The value of an [`AbiParameter`].
pub struct AbiParameterView {
    pub name: Seq<char>,
    pub typ: AbiTypeView,
}

/// The value of an [`AbiFunction`].
pub struct AbiFunctionView {
    pub name: Seq<char>,
    pub doc: Option<Seq<char>>,
    pub is_view: bool,
    pub is_init: bool,
    pub is_payable: bool,
    pub is_private: bool,
    pub params: Seq<AbiParameterView>,
    pub callbacks: Seq<AbiTypeView>,
    pub callbacks_vec: Option<AbiTypeView>,
    pub result: Option<AbiTypeView>,
}

/// The value of an [`AbiBody`].
pub struct AbiBodyView {
    pub functions: Seq<AbiFunctionView>,
    pub root_schema: schemars::schema::RootSchema,
}

/// The value of an [`AbiRoot`].
pub struct AbiRootView {
    pub schema_version: Seq<char>,
    pub metadata: AbiMetadataView,
    pub body: AbiBodyView,
}

impl DeepView for AbiType {
    type V = AbiTypeView;

    open spec fn deep_view(&self) -> AbiTypeView {
        match *self {
            AbiType::Json { type_schema } => AbiTypeView::Json { type_schema },
            AbiType::Borsh { type_schema } => AbiTypeView::Borsh { type_schema },
        }
    }
}

impl DeepView for AbiParameter {
    type V = AbiParameterView;

    open spec fn deep_view(&self) -> AbiParameterView {
        AbiParameterView { name: self.name.deep_view(), typ: self.typ.deep_view() }
    }
}

impl DeepView for AbiFunction {
    type V = AbiFunctionView;

    open spec fn deep_view(&self) -> AbiFunctionView {
        AbiFunctionView {
            name: self.name.deep_view(),
            doc: self.doc.deep_view(),
            is_view: self.is_view,
            is_init: self.is_init,
            is_payable: self.is_payable,
            is_private: self.is_private,
            params: self.params.deep_view(),
            callbacks: self.callbacks.deep_view(),
            callbacks_vec: self.callbacks_vec.deep_view(),
            result: self.result.deep_view(),
        }
    }
}

impl DeepView for AbiMetadata {
    type V = AbiMetadataView;

    open spec fn deep_view(&self) -> AbiMetadataView {
        AbiMetadataView {
            name: self.name.deep_view(),
            version: self.version.deep_view(),
            authors: self.authors.deep_view(),
            build: self.build.deep_view(),
            wasm_hash: self.wasm_hash.deep_view(),
            other: self.other.deep_view(),
        }
    }
}

impl DeepView for AbiBody {
    type V = AbiBodyView;

    open spec fn deep_view(&self) -> AbiBodyView {
        AbiBodyView { functions: self.functions.deep_view(), root_schema: self.root_schema }
    }
}

impl DeepView for AbiRoot {
    type V = AbiRootView;

    open spec fn deep_view(&self) -> AbiRootView {
        AbiRootView {
            schema_version: self.schema_version.deep_view(),
            metadata: self.metadata.deep_view(),
            body: self.body.deep_view(),
        }
    }
}

} // verus!
