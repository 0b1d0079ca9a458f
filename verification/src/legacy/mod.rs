//! Documents of older schema versions, and their upgrade to the current one.
//!
//! A document names its schema version. The major and minor number of that
//! version decide which shape the document has; the patch number does not
//! count. A document of an older shape is upgraded step by step, each step
//! to the next shape, until it has the current one.

pub mod migration;
pub mod v0_1;
pub mod v0_2;

use crate::abi::{AbiRoot, AbiRootView, SCHEMA_VERSION};
use crate::json::{json_member, json_text, member, text};
use crate::version::{
    parse_release, precedes_current, semver_release, AbiVersionError, AbiVersionErrorView, SemVer,
    SCHEMA_MAJOR, SCHEMA_MINOR,
};
use migration::{
    all_uniform, folded_modifiers, function_to_current, function_to_v0_2, is_first_mixed,
    is_uniform, root_to_current, root_to_v0_2, v0_1_to_v0_2, v0_2_to_current, AbiMigrationError,
    AbiMigrationErrorView,
};
use vstd::prelude::*;

verus! {

/// The shapes that a document can have.
#[derive(Clone, Copy, Debug, PartialEq, Eq, Structural)]
pub enum SchemaGeneration {
    /// The shape of schema version 0.1.
    V0_1,
    /// The shape of schema version 0.2.
    V0_2,
    /// The current shape.
    Current,
}

/// The shape of the documents of a release, where the release is supported.
pub open spec fn generation_of(release: SemVer) -> Option<SchemaGeneration> {
    if release.major == 0 && release.minor == 1 {
        Some(SchemaGeneration::V0_1)
    } else if release.major == 0 && release.minor == 2 {
        Some(SchemaGeneration::V0_2)
    } else if release.major == SCHEMA_MAJOR && release.minor == SCHEMA_MINOR {
        Some(SchemaGeneration::Current)
    } else {
        None
    }
}

/// The shape that a schema version asks for, given the release numbers that
/// were read from it: that of its major and minor number where they are
/// supported, and an error that names the version and the supported range
/// where they are not.
pub open spec fn dispatched(requested: Seq<char>, release: Option<SemVer>) -> Result<
    SchemaGeneration,
    AbiVersionErrorView,
> {
    match release {
        None => Err(AbiVersionErrorView::MalformedVersionField),
        Some(found) => match generation_of(found) {
            Some(generation) => Ok(generation),
            None => Err(
                AbiVersionErrorView::UnsupportedSchemaVersion {
                    requested,
                    oldest_supported: v0_1::SCHEMA_VERSION@,
                    newest_supported: SCHEMA_VERSION@,
                    outdated: precedes_current(found),
                },
            ),
        },
    }
}

/// The schema version that a JSON document names: the text of its member
/// `schema_version`.
pub open spec fn schema_version_field(abi: serde_json::Value) -> Option<Seq<char>> {
    match json_member(abi, "schema_version"@) {
        Some(field) => json_text(field),
        None => None,
    }
}

/// The shape of a JSON document with the given schema version, if it has
/// one.
pub open spec fn detected(field: Option<Seq<char>>) -> Result<
    SchemaGeneration,
    AbiVersionErrorView,
> {
    match field {
        None => Err(AbiVersionErrorView::MalformedVersionField),
        Some(requested) => dispatched(requested, semver_release(requested)),
    }
}

/// Picks the shape for a schema version, given the release numbers that were
/// read from it.
pub fn dispatch(requested: &str, release: Option<SemVer>) -> (generation: Result<
    SchemaGeneration,
    AbiVersionError,
>)
    ensures
        match dispatched(requested@, release) {
            Ok(shape) => generation == Ok::<SchemaGeneration, AbiVersionError>(shape),
            Err(error) => generation is Err && generation->Err_0.deep_view() == error,
        },
{
    match release {
        None => Err(AbiVersionError::MalformedVersionField),
        Some(found) => {
            if found.major == 0 && found.minor == 1 {
                Ok(SchemaGeneration::V0_1)
            } else if found.major == 0 && found.minor == 2 {
                Ok(SchemaGeneration::V0_2)
            } else if found.major == SCHEMA_MAJOR && found.minor == SCHEMA_MINOR {
                Ok(SchemaGeneration::Current)
            } else {
                Err(
                    AbiVersionError::UnsupportedSchemaVersion {
                        requested: requested.to_string(),
                        oldest_supported: v0_1::SCHEMA_VERSION.to_string(),
                        newest_supported: SCHEMA_VERSION.to_string(),
                        outdated: found.major < SCHEMA_MAJOR || (found.major == SCHEMA_MAJOR
                            && found.minor < SCHEMA_MINOR),
                    },
                )
            }
        },
    }
}

/// Picks the shape for a schema version: the text is read as a semver
/// version, and its major and minor number decide.
pub fn detect_version(schema_version: &str) -> (generation: Result<
    SchemaGeneration,
    AbiVersionError,
>)
    ensures
        match dispatched(schema_version@, semver_release(schema_version@)) {
            Ok(shape) => generation == Ok::<SchemaGeneration, AbiVersionError>(shape),
            Err(error) => generation is Err && generation->Err_0.deep_view() == error,
        },
{
    dispatch(schema_version, parse_release(schema_version))
}

/// The schema version that a JSON document names, if it is an object with a
/// member `schema_version` that is a string.
pub fn schema_version_of(abi: &serde_json::Value) -> (field: Option<String>)
    ensures
        field.deep_view() == schema_version_field(*abi),
{
    match member(abi, "schema_version") {
        Some(value) => match text(value) {
            Some(version) => Some(version.to_string()),
            None => None,
        },
        None => None,
    }
}

/// Picks the shape of a JSON document by the schema version that it names.
/// A document without one is refused as malformed, and so is one whose
/// schema version is no semver version.
pub fn detect(abi: &serde_json::Value) -> (generation: Result<SchemaGeneration, AbiVersionError>)
    ensures
        match detected(schema_version_field(*abi)) {
            Ok(shape) => generation == Ok::<SchemaGeneration, AbiVersionError>(shape),
            Err(error) => generation is Err && generation->Err_0.deep_view() == error,
        },
{
    match schema_version_of(abi) {
        Some(requested) => detect_version(requested.as_str()),
        None => Err(AbiVersionError::MalformedVersionField),
    }
}

/// A document of any supported shape.
#[derive(Clone, Debug, PartialEq)]
pub enum VersionedDocument {
    V0_1(v0_1::AbiRoot),
    V0_2(v0_2::AbiRoot),
    Current(AbiRoot),
}

/// The value of a [`VersionedDocument`].
pub enum VersionedDocumentView {
    V0_1(v0_1::AbiRootView),
    V0_2(v0_2::AbiRootView),
    Current(AbiRootView),
}

impl DeepView for VersionedDocument {
    type V = VersionedDocumentView;

    open spec fn deep_view(&self) -> VersionedDocumentView {
        match *self {
            VersionedDocument::V0_1(abi) => VersionedDocumentView::V0_1(abi.deep_view()),
            VersionedDocument::V0_2(abi) => VersionedDocumentView::V0_2(abi.deep_view()),
            VersionedDocument::Current(abi) => VersionedDocumentView::Current(abi.deep_view()),
        }
    }
}

impl VersionedDocumentView {
    /// The shape of the document.
    pub open spec fn generation(self) -> SchemaGeneration {
        match self {
            VersionedDocumentView::V0_1(_) => SchemaGeneration::V0_1,
            VersionedDocumentView::V0_2(_) => SchemaGeneration::V0_2,
            VersionedDocumentView::Current(_) => SchemaGeneration::Current,
        }
    }

    /// The metadata of the document.
    pub open spec fn metadata(self) -> crate::abi::AbiMetadataView {
        match self {
            VersionedDocumentView::V0_1(abi) => abi.metadata,
            VersionedDocumentView::V0_2(abi) => abi.metadata,
            VersionedDocumentView::Current(abi) => abi.metadata,
        }
    }
}

impl VersionedDocument {
    /// The shape of the document.
    pub fn generation(&self) -> (generation: SchemaGeneration)
        ensures
            generation == self.deep_view().generation(),
    {
        match self {
            VersionedDocument::V0_1(_) => SchemaGeneration::V0_1,
            VersionedDocument::V0_2(_) => SchemaGeneration::V0_2,
            VersionedDocument::Current(_) => SchemaGeneration::Current,
        }
    }
}

/// A document in the current shape: each older shape goes through every step
/// that separates it from the current one, and a current document stays as
/// it is.
pub open spec fn migrated(document: VersionedDocumentView) -> Result<
    AbiRootView,
    AbiMigrationErrorView,
> {
    match document {
        VersionedDocumentView::V0_1(abi) => match root_to_v0_2(abi) {
            Ok(next) => Ok(root_to_current(next)),
            Err(error) => Err(error),
        },
        VersionedDocumentView::V0_2(abi) => Ok(root_to_current(abi)),
        VersionedDocumentView::Current(abi) => Ok(abi),
    }
}

/// Brings a document into the current shape. A current document comes back
/// as it is. An older one is upgraded step by step; the upgrade fails only
/// on a version 0.1 document with a function whose parameters mix
/// serializations.
pub fn migrate(document: VersionedDocument) -> (current: Result<AbiRoot, AbiMigrationError>)
    ensures
        match migrated(document.deep_view()) {
            Ok(abi) => current is Ok && current->Ok_0.deep_view() == abi,
            Err(error) => current is Err && current->Err_0.deep_view() == error,
        },
        document matches VersionedDocument::Current(abi) ==> current == Ok::<
            AbiRoot,
            AbiMigrationError,
        >(abi),
{
    match document {
        VersionedDocument::V0_1(abi) => match v0_1_to_v0_2(abi) {
            Ok(next) => Ok(v0_2_to_current(next)),
            Err(error) => Err(error),
        },
        VersionedDocument::V0_2(abi) => Ok(v0_2_to_current(abi)),
        VersionedDocument::Current(abi) => Ok(abi),
    }
}

/// Upgrades compose: a version 0.1 document and a version 0.2 document that
/// is what the first step makes of it come out of the chain as the same
/// current document.
pub proof fn lemma_migration_composes(first: v0_1::AbiRootView, second: v0_2::AbiRootView)
    requires
        root_to_v0_2(first) == Ok::<v0_2::AbiRootView, AbiMigrationErrorView>(second),
    ensures
        migrated(VersionedDocumentView::V0_1(first)) == migrated(
            VersionedDocumentView::V0_2(second),
        ),
{
}

/// No upgrade touches the metadata: whatever shape a document has, the
/// current document that it becomes has the metadata it had.
pub proof fn lemma_migration_preserves_metadata(document: VersionedDocumentView)
    requires
        migrated(document) is Ok,
    ensures
        migrated(document)->Ok_0.metadata == document.metadata(),
{
}

/// No upgrade touches the catalog of types, nor the number and the names of
/// the functions.
pub proof fn lemma_migration_preserves_functions(abi: v0_1::AbiRootView, i: int)
    requires
        migrated(VersionedDocumentView::V0_1(abi)) is Ok,
        0 <= i < abi.body.functions.len(),
    ensures
        migrated(VersionedDocumentView::V0_1(abi))->Ok_0.body.root_schema == abi.body.root_schema,
        migrated(VersionedDocumentView::V0_1(abi))->Ok_0.body.functions.len()
            == abi.body.functions.len(),
        migrated(VersionedDocumentView::V0_1(abi))->Ok_0.body.functions[i]
            == function_to_current(function_to_v0_2(abi.body.functions[i])),
        migrated(VersionedDocumentView::V0_1(abi))->Ok_0.body.functions[i].name
            == abi.body.functions[i].name,
{
}

/// A version 0.1 document is brought into the current shape exactly when
/// none of its functions mixes serializations. Documents of the other shapes
/// always are.
pub proof fn lemma_migration_succeeds_iff_uniform(document: VersionedDocumentView)
    ensures
        migrated(document) is Ok <==> (document matches VersionedDocumentView::V0_1(abi)
            ==> all_uniform(abi.body.functions)),
{
}

/// A document that was upgraded carries the current schema version.
pub proof fn lemma_migration_sets_version(document: VersionedDocumentView)
    requires
        !(document is Current),
        migrated(document) is Ok,
    ensures
        migrated(document)->Ok_0.schema_version == SCHEMA_VERSION@,
{
}

/// Where a function of a version 0.1 document mixes serializations and none
/// before it does, the error names that function.
pub proof fn lemma_migration_fails_on_first_mixed(abi: v0_1::AbiRootView, i: int)
    requires
        is_first_mixed(abi.body.functions, i),
    ensures
        migrated(VersionedDocumentView::V0_1(abi)) == Err::<AbiRootView, AbiMigrationErrorView>(
            AbiMigrationErrorView::MixedParameterSerialization {
                function: abi.body.functions[i].name,
            },
        ),
{
    let first = choose|k: int| is_first_mixed(abi.body.functions, k);
    assert(!all_uniform(abi.body.functions));
    assert(first == i);
}

/// A function whose first parameter is JSON and whose second is Borsh makes
/// the upgrade of its document fail, however many parameters follow.
pub proof fn lemma_mixed_parameters_rejected(abi: v0_1::AbiRootView, i: int)
    requires
        0 <= i < abi.body.functions.len(),
        abi.body.functions[i].params.len() >= 2,
        abi.body.functions[i].params[0].typ is Json,
        abi.body.functions[i].params[1].typ is Borsh,
    ensures
        !is_uniform(abi.body.functions[i].params),
        root_to_v0_2(abi) is Err,
        migrated(VersionedDocumentView::V0_1(abi)) is Err,
        migrated(VersionedDocumentView::V0_1(abi))->Err_0 is MixedParameterSerialization,
{
    let params = abi.body.functions[i].params;
    assert(params[1].typ is Borsh);
    assert(!is_uniform(params));
    assert(!all_uniform(abi.body.functions));
}

/// The flags of a function fold into its kind and its modifiers without
/// loss: the kind says whether the function is a view, each modifier is
/// there exactly when its flag was set, and none is there twice.
pub proof fn lemma_flags_fold_without_loss(f: v0_2::AbiFunctionView)
    ensures
        function_to_current(f).kind is View <==> f.is_view,
        function_to_current(f).modifiers.contains(crate::abi::AbiFunctionModifier::Init)
            <==> f.is_init,
        function_to_current(f).modifiers.contains(crate::abi::AbiFunctionModifier::Private)
            <==> f.is_private,
        function_to_current(f).modifiers.contains(crate::abi::AbiFunctionModifier::Payable)
            <==> f.is_payable,
        function_to_current(f).modifiers.no_duplicates(),
{
    let m = function_to_current(f).modifiers;
    assert(m == folded_modifiers(f.is_init, f.is_private, f.is_payable));
    if f.is_init {
        assert(m[0] == crate::abi::AbiFunctionModifier::Init);
    }
    if f.is_private {
        let k = if f.is_init {
            1int
        } else {
            0int
        };
        assert(m[k] == crate::abi::AbiFunctionModifier::Private);
    }
    if f.is_payable {
        assert(m[m.len() - 1] == crate::abi::AbiFunctionModifier::Payable);
    }
}

} // verus!
