//! The current ABI document: the callable functions of a contract, the types
//! of their parameters and results, and how the contract was built.
//!
//! Each type has a deep view, its mathematical value: texts are sequences of
//! characters, vectors are sequences, and a type descriptor stands for itself.
//! Older schema versions share the views of metadata, types and parameter
//! lists, so that an upgrade can be stated as an equation between views.

use std::collections::HashMap;
use vstd::prelude::*;

verus! {

/// Current version of the ABI schema format.
pub const SCHEMA_VERSION: &'static str = "0.4.0";

/// How a contract was built.
#[derive(Clone, Debug, PartialEq, Eq, Default)]
pub struct BuildInfo {
    /// The compiler (versioned) that was used to build the contract.
    pub compiler: String,
    /// The build tool (versioned) that was used to build the contract.
    pub builder: String,
    /// The docker image (versioned) where the contract was built.
    pub image: Option<String>,
}

/// The value of a [`BuildInfo`].
pub struct BuildInfoView {
    pub compiler: Seq<char>,
    pub builder: Seq<char>,
    pub image: Option<Seq<char>>,
}

impl DeepView for BuildInfo {
    type V = BuildInfoView;

    open spec fn deep_view(&self) -> BuildInfoView {
        BuildInfoView {
            compiler: self.compiler.deep_view(),
            builder: self.builder.deep_view(),
            image: self.image.deep_view(),
        }
    }
}

/// Who wrote a contract and how it was built. No schema version ever changed
/// what a document says here.
#[derive(Clone, Debug, PartialEq, Eq, Default)]
pub struct AbiMetadata {
    /// The name of the smart contract.
    pub name: Option<String>,
    /// The version of the smart contract.
    pub version: Option<String>,
    /// The authors of the smart contract.
    pub authors: Vec<String>,
    /// The information about how this contract was built.
    pub build: Option<BuildInfo>,
    /// The SHA-256 hash of the contract WASM code in Base58 format.
    pub wasm_hash: Option<String>,
    /// Other arbitrary metadata.
    pub other: HashMap<String, String>,
}

/// The value of the metadata of a document, of whatever schema version.
pub struct AbiMetadataView {
    pub name: Option<Seq<char>>,
    pub version: Option<Seq<char>>,
    pub authors: Seq<Seq<char>>,
    pub build: Option<BuildInfoView>,
    pub wasm_hash: Option<Seq<char>>,
    pub other: Map<Seq<char>, Seq<char>>,
}

impl DeepView for AbiMetadata {
    type V = AbiMetadataView;

    open spec fn deep_view(&self) -> AbiMetadataView {
        AbiMetadataView {
            name: self.name.deep_view(),
            version: self.version.deep_view(),
            authors: self.authors.deep_view(),
            build: self.build.deep_view(),
            wasm_hash: self.wasm_hash.deep_view(),
            other: self.other.deep_view(),
        }
    }
}

/// Function kind regulates whether this function's invocation requires a
/// transaction (so-called call functions) or not (view functions).
#[derive(Clone, Copy, Debug, PartialEq, Eq, Structural)]
pub enum AbiFunctionKind {
    View,
    Call,
}

impl DeepView for AbiFunctionKind {
    type V = AbiFunctionKind;

    open spec fn deep_view(&self) -> AbiFunctionKind {
        *self
    }
}

/// Function can have multiple modifiers that can change its semantics.
#[derive(Clone, Copy, Debug, PartialEq, Eq, Structural)]
pub enum AbiFunctionModifier {
    /// Init functions can be used to initialize the state of the contract.
    Init,
    /// Private functions can only be called from the contract containing them.
    Private,
    /// Payable functions can accept token transfer together with the function
    /// call.
    Payable,
}

impl DeepView for AbiFunctionModifier {
    type V = AbiFunctionModifier;

    open spec fn deep_view(&self) -> AbiFunctionModifier {
        *self
    }
}

/// Information about a single type (e.g. return type): its descriptor, under
/// the serialization that the descriptor belongs to.
#[allow(inconsistent_fields)]
#[derive(Clone, Debug, PartialEq)]
pub enum AbiType {
    Json {
        /// JSON Subschema that represents this type.
        type_schema: schemars::schema::Schema,
    },
    Borsh {
        /// Inline Borsh schema that represents this type.
        type_schema: borsh::schema::BorshSchemaContainer,
    },
}

/// The value of a type of a document, of whatever schema version.
#[allow(inconsistent_fields)]
pub enum AbiTypeView {
    Json { type_schema: schemars::schema::Schema },
    Borsh { type_schema: borsh::schema::BorshSchemaContainer },
}

impl DeepView for AbiType {
    type V = AbiTypeView;

    open spec fn deep_view(&self) -> AbiTypeView {
        match *self {
            AbiType::Json { type_schema } => AbiTypeView::Json { type_schema },
            AbiType::Borsh { type_schema } => AbiTypeView::Borsh { type_schema },
        }
    }
}

/// Information about a single named JSON function parameter.
#[derive(Clone, Debug, PartialEq)]
pub struct AbiJsonParameter {
    /// Parameter name (e.g. `p1` in `fn foo(p1: u32) {}`).
    pub name: String,
    /// JSON Subschema that represents this type.
    pub type_schema: schemars::schema::Schema,
}

/// The value of an [`AbiJsonParameter`].
pub struct AbiJsonParameterView {
    pub name: Seq<char>,
    pub type_schema: schemars::schema::Schema,
}

impl DeepView for AbiJsonParameter {
    type V = AbiJsonParameterView;

    open spec fn deep_view(&self) -> AbiJsonParameterView {
        AbiJsonParameterView { name: self.name.deep_view(), type_schema: self.type_schema }
    }
}

/// Information about a single named Borsh function parameter.
#[derive(Clone, Debug, PartialEq)]
pub struct AbiBorshParameter {
    /// Parameter name (e.g. `p1` in `fn foo(p1: u32) {}`).
    pub name: String,
    /// Inline Borsh schema that represents this type.
    pub type_schema: borsh::schema::BorshSchemaContainer,
}

/// The value of an [`AbiBorshParameter`].
pub struct AbiBorshParameterView {
    pub name: Seq<char>,
    pub type_schema: borsh::schema::BorshSchemaContainer,
}

impl DeepView for AbiBorshParameter {
    type V = AbiBorshParameterView;

    open spec fn deep_view(&self) -> AbiBorshParameterView {
        AbiBorshParameterView { name: self.name.deep_view(), type_schema: self.type_schema }
    }
}

/// A list of function parameters sharing the same serialization type. A list
/// of one kind cannot hold a parameter of the other.
#[allow(inconsistent_fields)]
#[derive(Clone, Debug, PartialEq)]
pub enum AbiParameters {
    Json { args: Vec<AbiJsonParameter> },
    Borsh { args: Vec<AbiBorshParameter> },
}

/// The value of a list of parameters.
#[allow(inconsistent_fields)]
pub enum AbiParametersView {
    Json { args: Seq<AbiJsonParameterView> },
    Borsh { args: Seq<AbiBorshParameterView> },
}

impl AbiParametersView {
    /// How many parameters the list has.
    pub open spec fn len(self) -> nat {
        match self {
            AbiParametersView::Json { args } => args.len(),
            AbiParametersView::Borsh { args } => args.len(),
        }
    }
}

impl DeepView for AbiParameters {
    type V = AbiParametersView;

    open spec fn deep_view(&self) -> AbiParametersView {
        match *self {
            AbiParameters::Json { args } => AbiParametersView::Json { args: args.deep_view() },
            AbiParameters::Borsh { args } => AbiParametersView::Borsh { args: args.deep_view() },
        }
    }
}

impl Default for AbiParameters {
    /// The empty list. JSON was picked arbitrarily: for an empty list the
    /// serialization does not matter.
    fn default() -> (params: AbiParameters)
        ensures
            params.deep_view() == (AbiParametersView::Json { args: Seq::empty() }),
    {
        let params = AbiParameters::Json { args: Vec::new() };
        assert(params.deep_view()->Json_args =~= Seq::empty());
        params
    }
}

impl AbiParameters {
    /// Whether the list has no parameter.
    pub fn is_empty(&self) -> (empty: bool)
        ensures
            empty == (self.deep_view().len() == 0),
    {
        match self {
            AbiParameters::Json { args } => args.len() == 0,
            AbiParameters::Borsh { args } => args.len() == 0,
        }
    }
}

/// ABI of a single function.
#[derive(Clone, Debug, PartialEq)]
pub struct AbiFunction {
    pub name: String,
    /// Human-readable documentation parsed from the source file.
    pub doc: Option<String>,
    /// Function kind that regulates whether the function has to be invoked
    /// from a transaction.
    pub kind: AbiFunctionKind,
    /// List of modifiers affecting the function.
    pub modifiers: Vec<AbiFunctionModifier>,
    /// Type identifiers of the function parameters.
    pub params: AbiParameters,
    /// Type identifiers of the callbacks of the function.
    pub callbacks: Vec<AbiType>,
    /// Type identifier of the vararg callbacks of the function.
    pub callbacks_vec: Option<AbiType>,
    /// Return type identifier.
    pub result: Option<AbiType>,
}

/// The value of an [`AbiFunction`].
pub struct AbiFunctionView {
    pub name: Seq<char>,
    pub doc: Option<Seq<char>>,
    pub kind: AbiFunctionKind,
    pub modifiers: Seq<AbiFunctionModifier>,
    pub params: AbiParametersView,
    pub callbacks: Seq<AbiTypeView>,
    pub callbacks_vec: Option<AbiTypeView>,
    pub result: Option<AbiTypeView>,
}

impl DeepView for AbiFunction {
    type V = AbiFunctionView;

    open spec fn deep_view(&self) -> AbiFunctionView {
        AbiFunctionView {
            name: self.name.deep_view(),
            doc: self.doc.deep_view(),
            kind: self.kind,
            modifiers: self.modifiers.deep_view(),
            params: self.params.deep_view(),
            callbacks: self.callbacks.deep_view(),
            callbacks_vec: self.callbacks_vec.deep_view(),
            result: self.result.deep_view(),
        }
    }
}

/// Core ABI information.
#[derive(Clone, Debug, PartialEq)]
pub struct AbiBody {
    /// ABIs of all contract's functions.
    pub functions: Vec<AbiFunction>,
    /// Root JSON Schema containing all types referenced in the functions.
    pub root_schema: schemars::schema::RootSchema,
}

/// The value of an [`AbiBody`].
pub struct AbiBodyView {
    pub functions: Seq<AbiFunctionView>,
    pub root_schema: schemars::schema::RootSchema,
}

impl DeepView for AbiBody {
    type V = AbiBodyView;

    open spec fn deep_view(&self) -> AbiBodyView {
        AbiBodyView { functions: self.functions.deep_view(), root_schema: self.root_schema }
    }
}

/// Contract ABI.
#[derive(Clone, Debug, PartialEq)]
pub struct AbiRoot {
    /// Semver of the ABI schema format.
    pub schema_version: String,
    /// Metadata information about the contract.
    pub metadata: AbiMetadata,
    /// Core ABI information (functions and types).
    pub body: AbiBody,
}

/// The value of an [`AbiRoot`].
pub struct AbiRootView {
    pub schema_version: Seq<char>,
    pub metadata: AbiMetadataView,
    pub body: AbiBodyView,
}

impl DeepView for AbiRoot {
    type V = AbiRootView;

    open spec fn deep_view(&self) -> AbiRootView {
        AbiRootView {
            schema_version: self.schema_version.deep_view(),
            metadata: self.metadata.deep_view(),
            body: self.body.deep_view(),
        }
    }
}

} // verus!
