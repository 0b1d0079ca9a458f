//! The upgrade of a document from one schema version to the next.
//!
//! Each step is stated over the values of the documents: what a step does to
//! a document's value is a spec function, and the executable step returns a
//! document with that value. Metadata and type descriptors pass through
//! unchanged. Version 0.1 to 0.2 groups the parameters of each function under
//! the serialization of the first; it fails where a function mixes the two.
//! Version 0.2 to the current one folds the four flags of a function into its
//! kind and its modifiers.

use super::v0_1;
use super::v0_2;
use crate::abi::{
    AbiBody, AbiBodyView, AbiBorshParameter, AbiBorshParameterView, AbiFunction, AbiFunctionKind,
    AbiFunctionModifier, AbiFunctionView, AbiJsonParameter, AbiJsonParameterView, AbiMetadata,
    AbiParameters, AbiParametersView, AbiRoot, AbiRootView, AbiType, AbiTypeView, SCHEMA_VERSION,
};
use vstd::prelude::*;

verus! {

/// Why a document could not be upgraded.
#[derive(Clone, Debug, PartialEq, Eq)]
pub enum AbiMigrationError {
    /// A function of a version 0.1 document has parameters of both
    /// serializations. `function` is the name of the first such function.
    MixedParameterSerialization { function: String },
}

/// The value of an [`AbiMigrationError`].
pub enum AbiMigrationErrorView {
    MixedParameterSerialization { function: Seq<char> },
}

impl DeepView for AbiMigrationError {
    type V = AbiMigrationErrorView;

    open spec fn deep_view(&self) -> AbiMigrationErrorView {
        match *self {
            AbiMigrationError::MixedParameterSerialization { function } => {
                AbiMigrationErrorView::MixedParameterSerialization { function: function@ }
            },
        }
    }
}

/// The JSON Schema that a type carries, where it carries one.
pub open spec fn json_schema_of(typ: AbiTypeView) -> schemars::schema::Schema {
    match typ {
        AbiTypeView::Json { type_schema } => type_schema,
        AbiTypeView::Borsh { .. } => arbitrary(),
    }
}

/// The Borsh schema that a type carries, where it carries one.
pub open spec fn borsh_schema_of(typ: AbiTypeView) -> borsh::schema::BorshSchemaContainer {
    match typ {
        AbiTypeView::Json { .. } => arbitrary(),
        AbiTypeView::Borsh { type_schema } => type_schema,
    }
}

/// Whether the parameters of a version 0.1 function are to be read as JSON:
/// the first one is, or there is none.
pub open spec fn reads_as_json(params: Seq<v0_1::AbiParameterView>) -> bool {
    params.len() == 0 || params[0].typ is Json
}

/// Whether every parameter has the serialization of the first.
pub open spec fn is_uniform(params: Seq<v0_1::AbiParameterView>) -> bool {
    forall|i: int|
        0 <= i < params.len() ==> ((#[trigger] params[i]).typ is Json <==> reads_as_json(params))
}

/// A version 0.1 parameter as a JSON parameter.
pub open spec fn as_json_parameter(param: v0_1::AbiParameterView) -> AbiJsonParameterView {
    AbiJsonParameterView { name: param.name, type_schema: json_schema_of(param.typ) }
}

/// A version 0.1 parameter as a Borsh parameter.
pub open spec fn as_borsh_parameter(param: v0_1::AbiParameterView) -> AbiBorshParameterView {
    AbiBorshParameterView { name: param.name, type_schema: borsh_schema_of(param.typ) }
}

/// The parameters of a version 0.1 function as one list, under the
/// serialization of the first parameter.
pub open spec fn grouped(params: Seq<v0_1::AbiParameterView>) -> AbiParametersView {
    if reads_as_json(params) {
        AbiParametersView::Json {
            args: params.map_values(|p: v0_1::AbiParameterView| as_json_parameter(p)),
        }
    } else {
        AbiParametersView::Borsh {
            args: params.map_values(|p: v0_1::AbiParameterView| as_borsh_parameter(p)),
        }
    }
}

/// A version 0.1 function in version 0.2.
pub open spec fn function_to_v0_2(f: v0_1::AbiFunctionView) -> v0_2::AbiFunctionView {
    v0_2::AbiFunctionView {
        name: f.name,
        doc: f.doc,
        is_view: f.is_view,
        is_init: f.is_init,
        is_payable: f.is_payable,
        is_private: f.is_private,
        params: grouped(f.params),
        callbacks: f.callbacks,
        callbacks_vec: f.callbacks_vec,
        result: f.result,
    }
}

/// Whether function `i` mixes serializations and no function before it does.
pub open spec fn is_first_mixed(functions: Seq<v0_1::AbiFunctionView>, i: int) -> bool {
    &&& 0 <= i < functions.len()
    &&& !is_uniform(functions[i].params)
    &&& forall|j: int| 0 <= j < i ==> is_uniform((#[trigger] functions[j]).params)
}

/// Whether no function of a version 0.1 document mixes serializations.
pub open spec fn all_uniform(functions: Seq<v0_1::AbiFunctionView>) -> bool {
    forall|i: int| 0 <= i < functions.len() ==> is_uniform((#[trigger] functions[i]).params)
}

/// A version 0.1 document in version 0.2, or the error that names its first
/// function with parameters of both serializations.
pub open spec fn root_to_v0_2(abi: v0_1::AbiRootView) -> Result<
    v0_2::AbiRootView,
    AbiMigrationErrorView,
> {
    if all_uniform(abi.body.functions) {
        Ok(
            v0_2::AbiRootView {
                schema_version: v0_2::SCHEMA_VERSION@,
                metadata: abi.metadata,
                body: v0_2::AbiBodyView {
                    functions: abi.body.functions.map_values(
                        |f: v0_1::AbiFunctionView| function_to_v0_2(f),
                    ),
                    root_schema: abi.body.root_schema,
                },
            },
        )
    } else {
        let first = choose|i: int| is_first_mixed(abi.body.functions, i);
        Err(
            AbiMigrationErrorView::MixedParameterSerialization {
                function: abi.body.functions[first].name,
            },
        )
    }
}

/// The kind that the flag `is_view` stands for.
pub open spec fn folded_kind(is_view: bool) -> AbiFunctionKind {
    if is_view {
        AbiFunctionKind::View
    } else {
        AbiFunctionKind::Call
    }
}

/// The modifiers that three flags stand for: one for each flag that is set,
/// in the order init, private, payable.
pub open spec fn folded_modifiers(is_init: bool, is_private: bool, is_payable: bool) -> Seq<
    AbiFunctionModifier,
> {
    let init = if is_init {
        seq![AbiFunctionModifier::Init]
    } else {
        Seq::empty()
    };
    let private = if is_private {
        seq![AbiFunctionModifier::Private]
    } else {
        Seq::empty()
    };
    let payable = if is_payable {
        seq![AbiFunctionModifier::Payable]
    } else {
        Seq::empty()
    };
    init + private + payable
}

/// A version 0.2 function in the current version.
pub open spec fn function_to_current(f: v0_2::AbiFunctionView) -> AbiFunctionView {
    AbiFunctionView {
        name: f.name,
        doc: f.doc,
        kind: folded_kind(f.is_view),
        modifiers: folded_modifiers(f.is_init, f.is_private, f.is_payable),
        params: f.params,
        callbacks: f.callbacks,
        callbacks_vec: f.callbacks_vec,
        result: f.result,
    }
}

/// A version 0.2 document in the current version.
pub open spec fn root_to_current(abi: v0_2::AbiRootView) -> AbiRootView {
    AbiRootView {
        schema_version: SCHEMA_VERSION@,
        metadata: abi.metadata,
        body: AbiBodyView {
            functions: abi.body.functions.map_values(
                |f: v0_2::AbiFunctionView| function_to_current(f),
            ),
            root_schema: abi.body.root_schema,
        },
    }
}

/// A type that may hand out the Borsh schema it carries.
pub trait ToBorshSchema: Sized {
    /// Whether the type carries a Borsh schema.
    spec fn has_borsh_schema(&self) -> bool;

    /// The Borsh schema that the type carries, where it carries one.
    spec fn borsh_schema(&self) -> borsh::schema::BorshSchemaContainer;

    /// The Borsh schema of a type that carries one.
    fn to_borsh_schema(self) -> (schema: borsh::schema::BorshSchemaContainer)
        requires
            self.has_borsh_schema(),
        ensures
            schema == self.borsh_schema(),
    ;
}

impl ToBorshSchema for v0_1::AbiType {
    open spec fn has_borsh_schema(&self) -> bool {
        *self is Borsh
    }

    open spec fn borsh_schema(&self) -> borsh::schema::BorshSchemaContainer {
        borsh_schema_of(self.deep_view())
    }

    fn to_borsh_schema(self) -> (schema: borsh::schema::BorshSchemaContainer) {
        match self {
            v0_1::AbiType::Borsh { type_schema } => type_schema,
            v0_1::AbiType::Json { .. } => vstd::pervasive::unreached(),
        }
    }
}

/// A type that may hand out the JSON Schema it carries.
pub trait ToJsonSchema: Sized {
    /// Whether the type carries a JSON Schema.
    spec fn has_json_schema(&self) -> bool;

    /// The JSON Schema that the type carries, where it carries one.
    spec fn json_schema(&self) -> schemars::schema::Schema;

    /// The JSON Schema of a type that carries one.
    fn to_json_schema(self) -> (schema: schemars::schema::Schema)
        requires
            self.has_json_schema(),
        ensures
            schema == self.json_schema(),
    ;
}

impl ToJsonSchema for v0_1::AbiType {
    open spec fn has_json_schema(&self) -> bool {
        *self is Json
    }

    open spec fn json_schema(&self) -> schemars::schema::Schema {
        json_schema_of(self.deep_view())
    }

    fn to_json_schema(self) -> (schema: schemars::schema::Schema) {
        match self {
            v0_1::AbiType::Json { type_schema } => type_schema,
            v0_1::AbiType::Borsh { .. } => vstd::pervasive::unreached(),
        }
    }
}

/// A version 0.1 type in version 0.2: the same descriptor under the same
/// serialization.
pub fn v0_1_abi_type_to_v0_2(abi_type: v0_1::AbiType) -> (upgraded: v0_2::AbiType)
    ensures
        upgraded.deep_view() == abi_type.deep_view(),
{
    match abi_type {
        v0_1::AbiType::Json { type_schema } => v0_2::AbiType::Json { type_schema },
        v0_1::AbiType::Borsh { type_schema } => v0_2::AbiType::Borsh { type_schema },
    }
}

/// A version 0.2 type in the current version: the same descriptor under the
/// same serialization.
pub fn v0_2_abi_type_to_current(abi_type: v0_2::AbiType) -> (upgraded: AbiType)
    ensures
        upgraded.deep_view() == abi_type.deep_view(),
{
    match abi_type {
        v0_2::AbiType::Json { type_schema } => AbiType::Json { type_schema },
        v0_2::AbiType::Borsh { type_schema } => AbiType::Borsh { type_schema },
    }
}

fn types_v0_1_to_v0_2(types: Vec<v0_1::AbiType>) -> (upgraded: Vec<v0_2::AbiType>)
    ensures
        upgraded.deep_view() == types.deep_view(),
{
    let mut upgraded: Vec<v0_2::AbiType> = Vec::new();
    for t in it: types
        invariant
            upgraded@.len() == it.index(),
            forall|j: int|
                0 <= j < upgraded@.len() ==> (#[trigger] upgraded@[j]).deep_view()
                    == types@[j].deep_view(),
    {
        upgraded.push(v0_1_abi_type_to_v0_2(t));
    }
    assert(upgraded.deep_view() =~= types.deep_view());
    upgraded
}

fn types_v0_2_to_current(types: Vec<v0_2::AbiType>) -> (upgraded: Vec<AbiType>)
    ensures
        upgraded.deep_view() == types.deep_view(),
{
    let mut upgraded: Vec<AbiType> = Vec::new();
    for t in it: types
        invariant
            upgraded@.len() == it.index(),
            forall|j: int|
                0 <= j < upgraded@.len() ==> (#[trigger] upgraded@[j]).deep_view()
                    == types@[j].deep_view(),
    {
        upgraded.push(v0_2_abi_type_to_current(t));
    }
    assert(upgraded.deep_view() =~= types.deep_view());
    upgraded
}

fn optional_type_v0_1_to_v0_2(typ: Option<v0_1::AbiType>) -> (upgraded: Option<v0_2::AbiType>)
    ensures
        upgraded.deep_view() == typ.deep_view(),
{
    match typ {
        Some(t) => Some(v0_1_abi_type_to_v0_2(t)),
        None => None,
    }
}

fn optional_type_v0_2_to_current(typ: Option<v0_2::AbiType>) -> (upgraded: Option<AbiType>)
    ensures
        upgraded.deep_view() == typ.deep_view(),
{
    match typ {
        Some(t) => Some(v0_2_abi_type_to_current(t)),
        None => None,
    }
}

fn metadata_v0_1_to_v0_2(metadata: v0_1::AbiMetadata) -> (upgraded: v0_2::AbiMetadata)
    ensures
        upgraded.deep_view() == metadata.deep_view(),
{
    v0_2::AbiMetadata {
        name: metadata.name,
        version: metadata.version,
        authors: metadata.authors,
        build: metadata.build,
        wasm_hash: metadata.wasm_hash,
        other: metadata.other,
    }
}

fn metadata_v0_2_to_current(metadata: v0_2::AbiMetadata) -> (upgraded: AbiMetadata)
    ensures
        upgraded.deep_view() == metadata.deep_view(),
{
    AbiMetadata {
        name: metadata.name,
        version: metadata.version,
        authors: metadata.authors,
        build: metadata.build,
        wasm_hash: metadata.wasm_hash,
        other: metadata.other,
    }
}

/// The parameters of a version 0.1 function as one list under the
/// serialization of the first, or nothing where one of them has the other
/// serialization.
pub fn group_parameters(params: Vec<v0_1::AbiParameter>) -> (list: Option<v0_2::AbiParameters>)
    ensures
        is_uniform(params.deep_view()) ==> list is Some && list->0.deep_view() == grouped(
            params.deep_view(),
        ),
        !is_uniform(params.deep_view()) ==> list is None,
{
    let ghost views = params.deep_view();
    let is_json = params.len() == 0 || matches!(params[0].typ, v0_1::AbiType::Json { .. });
    assert(is_json == reads_as_json(views));
    if is_json {
        let mut args: Vec<v0_2::AbiJsonParameter> = Vec::new();
        for p in it: params
            invariant
                views == params.deep_view(),
                reads_as_json(views),
                args@.len() == it.index(),
                forall|j: int|
                    0 <= j < args@.len() ==> (#[trigger] views[j]).typ is Json
                        && args@[j].deep_view() == as_json_parameter(views[j]),
        {
            assert(p.deep_view() == views[args@.len() as int]);
            if !matches!(p.typ, v0_1::AbiType::Json { .. }) {
                return None;
            }
            args.push(v0_2::AbiJsonParameter { name: p.name, type_schema: p.typ.to_json_schema() });
        }
        let list = v0_2::AbiParameters::Json { args };
        assert(list.deep_view()->Json_args =~= grouped(views)->Json_args);
        Some(list)
    } else {
        let mut args: Vec<v0_2::AbiBorshParameter> = Vec::new();
        for p in it: params
            invariant
                views == params.deep_view(),
                !reads_as_json(views),
                args@.len() == it.index(),
                forall|j: int|
                    0 <= j < args@.len() ==> (#[trigger] views[j]).typ is Borsh
                        && args@[j].deep_view() == as_borsh_parameter(views[j]),
        {
            assert(p.deep_view() == views[args@.len() as int]);
            if !matches!(p.typ, v0_1::AbiType::Borsh { .. }) {
                return None;
            }
            args.push(
                v0_2::AbiBorshParameter { name: p.name, type_schema: p.typ.to_borsh_schema() },
            );
        }
        let list = v0_2::AbiParameters::Borsh { args };
        assert(list.deep_view()->Borsh_args =~= grouped(views)->Borsh_args);
        Some(list)
    }
}

/// A version 0.1 function in version 0.2, or the error that names it where
/// its parameters mix serializations.
pub fn function_v0_1_to_v0_2(f: v0_1::AbiFunction) -> (upgraded: Result<
    v0_2::AbiFunction,
    AbiMigrationError,
>)
    ensures
        is_uniform(f.deep_view().params) ==> upgraded is Ok && upgraded->Ok_0.deep_view()
            == function_to_v0_2(f.deep_view()),
        !is_uniform(f.deep_view().params) ==> upgraded is Err && upgraded->Err_0.deep_view() == (
        AbiMigrationErrorView::MixedParameterSerialization { function: f.deep_view().name }),
{
    match group_parameters(f.params) {
        Some(params) => Ok(
            v0_2::AbiFunction {
                name: f.name,
                doc: f.doc,
                is_view: f.is_view,
                is_init: f.is_init,
                is_payable: f.is_payable,
                is_private: f.is_private,
                params,
                callbacks: types_v0_1_to_v0_2(f.callbacks),
                callbacks_vec: optional_type_v0_1_to_v0_2(f.callbacks_vec),
                result: optional_type_v0_1_to_v0_2(f.result),
            },
        ),
        None => Err(AbiMigrationError::MixedParameterSerialization { function: f.name }),
    }
}

/// Upgrades a version 0.1 document to version 0.2. The metadata, the catalog
/// of types and the descriptors stay as they are. The upgrade fails on the
/// first function whose parameters mix serializations, and on no other
/// document.
pub fn v0_1_to_v0_2(abi: v0_1::AbiRoot) -> (upgraded: Result<v0_2::AbiRoot, AbiMigrationError>)
    ensures
        match root_to_v0_2(abi.deep_view()) {
            Ok(document) => upgraded is Ok && upgraded->Ok_0.deep_view() == document,
            Err(error) => upgraded is Err && upgraded->Err_0.deep_view() == error,
        },
{
    let ghost views = abi.deep_view().body.functions;
    let v0_1::AbiRoot { schema_version: _, metadata, body } = abi;
    let v0_1::AbiBody { functions, root_schema } = body;
    let mut upgraded: Vec<v0_2::AbiFunction> = Vec::new();
    for f in it: functions
        invariant
            views == functions.deep_view(),
            views == abi.deep_view().body.functions,
            upgraded@.len() == it.index(),
            forall|j: int| 0 <= j < upgraded@.len() ==> is_uniform((#[trigger] views[j]).params),
            forall|j: int|
                0 <= j < upgraded@.len() ==> (#[trigger] upgraded@[j]).deep_view()
                    == function_to_v0_2(views[j]),
    {
        let ghost i = upgraded@.len() as int;
        assert(f.deep_view() == views[i]);
        match function_v0_1_to_v0_2(f) {
            Ok(g) => {
                upgraded.push(g);
            },
            Err(error) => {
                proof {
                    assert(!is_uniform(views[i].params));
                    assert(!all_uniform(views));
                    assert(is_first_mixed(views, i));
                    let first = choose|k: int| is_first_mixed(views, k);
                    assert(first == i);
                    assert(views == abi.deep_view().body.functions);
                    assert(error.deep_view() == (
                    AbiMigrationErrorView::MixedParameterSerialization {
                        function: views[i].name,
                    }));
                }
                return Err(error);
            },
        }
    }
    let document = v0_2::AbiRoot {
        schema_version: v0_2::SCHEMA_VERSION.to_string(),
        metadata: metadata_v0_1_to_v0_2(metadata),
        body: v0_2::AbiBody { functions: upgraded, root_schema },
    };
    proof {
        assert(all_uniform(views));
        assert(document.deep_view().body.functions =~= views.map_values(
            |f: v0_1::AbiFunctionView| function_to_v0_2(f),
        ));
    }
    Ok(document)
}

/// The modifiers that three flags stand for.
pub fn fold_modifiers(is_init: bool, is_private: bool, is_payable: bool) -> (modifiers: Vec<
    AbiFunctionModifier,
>)
    ensures
        modifiers.deep_view() == folded_modifiers(is_init, is_private, is_payable),
{
    let mut modifiers: Vec<AbiFunctionModifier> = Vec::new();
    if is_init {
        modifiers.push(AbiFunctionModifier::Init);
    }
    if is_private {
        modifiers.push(AbiFunctionModifier::Private);
    }
    if is_payable {
        modifiers.push(AbiFunctionModifier::Payable);
    }
    assert(modifiers.deep_view() =~= folded_modifiers(is_init, is_private, is_payable));
    modifiers
}

fn parameters_v0_2_to_current(params: v0_2::AbiParameters) -> (upgraded: AbiParameters)
    ensures
        upgraded.deep_view() == params.deep_view(),
{
    match params {
        v0_2::AbiParameters::Json { args } => {
            let mut list: Vec<AbiJsonParameter> = Vec::new();
            for a in it: args
                invariant
                    list@.len() == it.index(),
                    forall|j: int|
                        0 <= j < list@.len() ==> (#[trigger] list@[j]).deep_view()
                            == args@[j].deep_view(),
            {
                list.push(AbiJsonParameter { name: a.name, type_schema: a.type_schema });
            }
            let upgraded = AbiParameters::Json { args: list };
            assert(upgraded.deep_view()->Json_args =~= args.deep_view());
            upgraded
        },
        v0_2::AbiParameters::Borsh { args } => {
            let mut list: Vec<AbiBorshParameter> = Vec::new();
            for a in it: args
                invariant
                    list@.len() == it.index(),
                    forall|j: int|
                        0 <= j < list@.len() ==> (#[trigger] list@[j]).deep_view()
                            == args@[j].deep_view(),
            {
                list.push(AbiBorshParameter { name: a.name, type_schema: a.type_schema });
            }
            let upgraded = AbiParameters::Borsh { args: list };
            assert(upgraded.deep_view()->Borsh_args =~= args.deep_view());
            upgraded
        },
    }
}

/// A version 0.2 function in the current version.
pub fn function_v0_2_to_current(f: v0_2::AbiFunction) -> (upgraded: AbiFunction)
    ensures
        upgraded.deep_view() == function_to_current(f.deep_view()),
{
    AbiFunction {
        name: f.name,
        doc: f.doc,
        kind: if f.is_view {
            AbiFunctionKind::View
        } else {
            AbiFunctionKind::Call
        },
        modifiers: fold_modifiers(f.is_init, f.is_private, f.is_payable),
        params: parameters_v0_2_to_current(f.params),
        callbacks: types_v0_2_to_current(f.callbacks),
        callbacks_vec: optional_type_v0_2_to_current(f.callbacks_vec),
        result: optional_type_v0_2_to_current(f.result),
    }
}

/// Upgrades a version 0.2 document to the current version. The metadata, the
/// catalog of types, the parameters and the descriptors stay as they are; the
/// flags of each function become its kind and its modifiers.
pub fn v0_2_to_current(abi: v0_2::AbiRoot) -> (upgraded: AbiRoot)
    ensures
        upgraded.deep_view() == root_to_current(abi.deep_view()),
{
    let ghost views = abi.deep_view().body.functions;
    let v0_2::AbiRoot { schema_version: _, metadata, body } = abi;
    let v0_2::AbiBody { functions, root_schema } = body;
    let mut upgraded: Vec<AbiFunction> = Vec::new();
    for f in it: functions
        invariant
            views == functions.deep_view(),
            upgraded@.len() == it.index(),
            forall|j: int|
                0 <= j < upgraded@.len() ==> (#[trigger] upgraded@[j]).deep_view()
                    == function_to_current(views[j]),
    {
        assert(f.deep_view() == views[upgraded@.len() as int]);
        upgraded.push(function_v0_2_to_current(f));
    }
    let document = AbiRoot {
        schema_version: SCHEMA_VERSION.to_string(),
        metadata: metadata_v0_2_to_current(metadata),
        body: AbiBody { functions: upgraded, root_schema },
    };
    proof {
        assert(document.deep_view().body.functions =~= views.map_values(
            |f: v0_2::AbiFunctionView| function_to_current(f),
        ));
    }
    document
}

} // verus!
