//! Partial ABI documents, one for each unit of a contract that was compiled
//! on its own, and their combination into one.
//!
//! The first entry of a batch decides the schema version of the whole batch.
//! Entries of another version are not merged; their versions are collected,
//! so that the error names every one of them. Where all entries agree, the
//! catalogs of types are merged, a later definition of a name replacing an
//! earlier one, and the functions are put together and sorted by name.

use crate::abi::{AbiBody, AbiFunction, AbiMetadata, AbiRoot, SCHEMA_VERSION};
use crate::schema::{
    extend_definitions, generator_definitions, has_default_settings, into_string_root_schema,
    new_generator, root_definitions, string_root_schema,
};
use crate::sorting::{is_sorted_by_name, sort_by_name};
use crate::text::{insert_ascending, join, joined, strictly_ascending};
use vstd::prelude::*;
use vstd::string::*;

verus! {

/// Core ABI information, with schema version and identity hash.
#[derive(Clone, Debug, PartialEq)]
pub struct ChunkedAbiEntry {
    /// Semver of the ABI schema format.
    pub schema_version: String,
    pub body: AbiBody,
}

/// What went wrong when entries were combined.
#[derive(Clone, Debug, PartialEq, Eq)]
pub enum AbiCombineErrorKind {
    /// Not every entry has the schema version of the first one.
    SchemaVersionConflict {
        /// The schema version of the first entry.
        expected: String,
        /// The other schema versions that occur, sorted, each of them once.
        found: Vec<String>,
    },
    /// There was no entry, so no schema version to go by.
    NoEntries,
}

/// The value of an [`AbiCombineErrorKind`].
pub enum AbiCombineErrorKindView {
    SchemaVersionConflict { expected: Seq<char>, found: Seq<Seq<char>> },
    NoEntries,
}

impl DeepView for AbiCombineErrorKind {
    type V = AbiCombineErrorKindView;

    open spec fn deep_view(&self) -> AbiCombineErrorKindView {
        match *self {
            AbiCombineErrorKind::SchemaVersionConflict { expected, found } => {
                AbiCombineErrorKindView::SchemaVersionConflict {
                    expected: expected@,
                    found: found.deep_view(),
                }
            },
            AbiCombineErrorKind::NoEntries => AbiCombineErrorKindView::NoEntries,
        }
    }
}

/// The error of a combination that failed.
#[derive(Clone, Debug, PartialEq, Eq)]
pub struct AbiCombineError {
    kind: AbiCombineErrorKind,
}

impl View for AbiCombineError {
    type V = AbiCombineErrorKind;

    closed spec fn view(&self) -> AbiCombineErrorKind {
        self.kind
    }
}

/// What an error kind says to a reader.
pub open spec fn message_of(kind: AbiCombineErrorKindView) -> Seq<char> {
    match kind {
        AbiCombineErrorKindView::SchemaVersionConflict { expected, found } => {
            "ABI schema version conflict: expected "@ + expected + ", found "@ + joined(
                found,
                ", "@,
            )
        },
        AbiCombineErrorKindView::NoEntries => "no ABI entries to combine"@,
    }
}

impl AbiCombineErrorKind {
    /// What the error says to a reader: the expected schema version and the
    /// others that were found, separated by commas.
    pub fn message(&self) -> (text: String)
        ensures
            text@ == message_of(self.deep_view()),
    {
        match self {
            AbiCombineErrorKind::SchemaVersionConflict { expected, found } => {
                let mut text = String::from_str("ABI schema version conflict: expected ");
                text.append(expected.as_str());
                text.append(", found ");
                let versions = join(found, ", ");
                text.append(versions.as_str());
                text
            },
            AbiCombineErrorKind::NoEntries => String::from_str("no ABI entries to combine"),
        }
    }
}

impl AbiCombineError {
    /// What went wrong.
    pub fn kind(&self) -> (kind: &AbiCombineErrorKind)
        ensures
            *kind == self@,
    {
        &self.kind
    }

    /// What the error says to a reader.
    pub fn message(&self) -> (text: String)
        ensures
            text@ == message_of(self@.deep_view()),
    {
        self.kind.message()
    }
}

/// Whether every entry has the schema version of the first.
pub open spec fn versions_agree(entries: Seq<ChunkedAbiEntry>) -> bool {
    forall|i: int|
        0 <= i < entries.len() ==> (#[trigger] entries[i]).schema_version@
            == entries[0].schema_version@
}

/// Whether `version` is the schema version of some entry and not that of the
/// first.
pub open spec fn is_unexpected(entries: Seq<ChunkedAbiEntry>, version: Seq<char>) -> bool {
    exists|i: int|
        0 <= i < entries.len() && (#[trigger] entries[i]).schema_version@ == version && version
            != entries[0].schema_version@
}

/// The functions of all entries, those of an earlier entry first.
pub open spec fn all_functions(entries: Seq<ChunkedAbiEntry>) -> Seq<AbiFunction>
    decreases entries.len(),
{
    if entries.len() == 0 {
        Seq::empty()
    } else {
        all_functions(entries.drop_last()) + entries.last().body.functions@
    }
}

/// The definitions of all entries by name. Where several entries define a
/// name, the last of them decides.
pub open spec fn all_definitions(entries: Seq<ChunkedAbiEntry>) -> Map<
    Seq<char>,
    schemars::schema::Schema,
>
    decreases entries.len(),
{
    if entries.len() == 0 {
        Map::empty()
    } else {
        all_definitions(entries.drop_last()).union_prefer_right(
            root_definitions(entries.last().body.root_schema),
        )
    }
}

/// Whether `combined` is what the combination of `entries` gives.
///
/// Without an entry it is the error that says so. Where the entries agree on
/// the schema version it is an entry of that version, with the functions of
/// all entries sorted by name and the catalog made of the definitions of all
/// entries. Otherwise it is the error that names the version of the first
/// entry and, sorted and once each, the other versions that occur.
pub open spec fn is_combination(
    entries: Seq<ChunkedAbiEntry>,
    combined: Result<ChunkedAbiEntry, AbiCombineError>,
) -> bool {
    if entries.len() == 0 {
        combined is Err && combined->Err_0@ is NoEntries
    } else if versions_agree(entries) {
        &&& combined is Ok
        &&& combined->Ok_0.schema_version == entries[0].schema_version
        &&& is_sorted_by_name(combined->Ok_0.body.functions@, all_functions(entries))
        &&& combined->Ok_0.body.root_schema == string_root_schema(all_definitions(entries))
        &&& root_definitions(combined->Ok_0.body.root_schema).dom() == all_definitions(
            entries,
        ).dom()
    } else {
        &&& combined is Err
        &&& combined->Err_0@ is SchemaVersionConflict
        &&& combined->Err_0@->expected == entries[0].schema_version
        &&& strictly_ascending(combined->Err_0@->found.deep_view())
        &&& forall|version: Seq<char>|
            combined->Err_0@->found.deep_view().contains(version) <==> is_unexpected(
                entries,
                version,
            )
    }
}

impl ChunkedAbiEntry {
    /// An entry of the current schema version.
    pub fn new(functions: Vec<AbiFunction>, root_schema: schemars::schema::RootSchema) -> (entry:
        ChunkedAbiEntry)
        ensures
            entry.schema_version@ == SCHEMA_VERSION@,
            entry.body.functions == functions,
            entry.body.root_schema == root_schema,
    {
        ChunkedAbiEntry {
            schema_version: SCHEMA_VERSION.to_string(),
            body: AbiBody { functions, root_schema },
        }
    }

    /// Combines the entries of one contract into one entry.
    ///
    /// Without an entry there is nothing to combine. Otherwise the first
    /// entry sets the schema version. If some entry has another one, the
    /// combination fails and names all the other versions, sorted, each of
    /// them once. If all agree, the result has that version, the functions
    /// of all entries sorted by name, and a catalog with the definitions of
    /// all entries, a later entry replacing what an earlier one defined
    /// under the same name.
    pub fn combine(entries: Vec<ChunkedAbiEntry>) -> (combined: Result<
        ChunkedAbiEntry,
        AbiCombineError,
    >)
        ensures
            is_combination(entries@, combined),
    {
        let mut schema_version: Option<String> = None;
        let mut functions: Vec<AbiFunction> = Vec::new();
        let mut generator = new_generator();
        let mut unexpected_versions: Vec<String> = Vec::new();
        proof {
            let none = entries@.take(0);
            assert(all_functions(none) =~= functions@);
            assert(all_definitions(none) =~= generator_definitions(generator));
        }
        for entry in it: entries
            invariant
                schema_version is None <==> it.index() == 0,
                schema_version is Some ==> schema_version->0 == entries@[0].schema_version,
                has_default_settings(generator),
                strictly_ascending(unexpected_versions.deep_view()),
                forall|version: Seq<char>|
                    unexpected_versions.deep_view().contains(version) <==> is_unexpected(
                        entries@.take(it.index() as int),
                        version,
                    ),
                versions_agree(entries@.take(it.index() as int)) ==> functions@ == all_functions(
                    entries@.take(it.index() as int),
                ) && generator_definitions(generator) == all_definitions(
                    entries@.take(it.index() as int),
                ),
        {
            let ghost i = it.index() as int;
            let ghost before = entries@.take(i);
            let ghost now = entries@.take(i + 1);
            let ghost unexpected_before = unexpected_versions.deep_view();
            proof {
                assert(now.drop_last() =~= before);
                assert(now.last() == entry);
                assert(now[i] == entry);
                assert forall|k: int| 0 <= k < i implies #[trigger] now[k] == before[k] by {}
            }
            let ChunkedAbiEntry { schema_version: version, body } = entry;
            let agrees = match &schema_version {
                Some(expected) => *expected == version,
                None => true,
            };
            if agrees {
                if schema_version.is_none() {
                    schema_version = Some(version);
                }
                extend_definitions(&mut generator, &body.root_schema);
                let mut more = body.functions;
                functions.append(&mut more);
                proof {
                    assert forall|v: Seq<char>| is_unexpected(now, v) <==> is_unexpected(
                        before,
                        v,
                    ) by {
                        if is_unexpected(now, v) {
                            let k = choose|k: int|
                                0 <= k < now.len() && (#[trigger] now[k]).schema_version@ == v
                                    && v != now[0].schema_version@;
                            assert(k < i);
                            assert(before[k].schema_version@ == v);
                        }
                        if is_unexpected(before, v) {
                            let k = choose|k: int|
                                0 <= k < before.len() && (#[trigger] before[k]).schema_version@
                                    == v && v != before[0].schema_version@;
                            assert(now[k].schema_version@ == v);
                        }
                    }
                    if versions_agree(now) {
                        assert forall|k: int| 0 <= k < before.len() implies (
                        #[trigger] before[k]).schema_version@ == before[0].schema_version@ by {
                            assert(now[k].schema_version@ == now[0].schema_version@);
                        }
                        assert(versions_agree(before));
                    }
                }
            } else {
                insert_ascending(&mut unexpected_versions, version);
                proof {
                    assert(now[i].schema_version@ != now[0].schema_version@);
                    assert(!versions_agree(now));
                    assert forall|v: Seq<char>|
                        unexpected_versions.deep_view().contains(v) <==> is_unexpected(now, v) by {
                        if is_unexpected(now, v) {
                            let k = choose|k: int|
                                0 <= k < now.len() && (#[trigger] now[k]).schema_version@ == v
                                    && v != now[0].schema_version@;
                            if k < i {
                                assert(before[k].schema_version@ == v);
                                assert(is_unexpected(before, v));
                            }
                        }
                        if is_unexpected(before, v) {
                            let k = choose|k: int|
                                0 <= k < before.len() && (#[trigger] before[k]).schema_version@
                                    == v && v != before[0].schema_version@;
                            assert(now[k].schema_version@ == v);
                        }
                        if v == version@ {
                            assert(now[i].schema_version@ == v);
                        }
                    }
                }
            }
        }
        assert(entries@.take(entries@.len() as int) =~= entries@);
        let expected = match schema_version {
            Some(version) => version,
            None => {
                return Err(AbiCombineError { kind: AbiCombineErrorKind::NoEntries });
            },
        };
        if unexpected_versions.len() > 0 {
            proof {
                let v = unexpected_versions.deep_view()[0];
                assert(unexpected_versions.deep_view().contains(v));
                assert(is_unexpected(entries@, v));
            }
            return Err(
                AbiCombineError {
                    kind: AbiCombineErrorKind::SchemaVersionConflict {
                        expected,
                        found: unexpected_versions,
                    },
                },
            );
        }
        proof {
            if !versions_agree(entries@) {
                let k = choose|k: int|
                    0 <= k < entries@.len() && (#[trigger] entries@[k]).schema_version@
                        != entries@[0].schema_version@;
                let v = entries@[k].schema_version@;
                assert(is_unexpected(entries@, v));
                assert(unexpected_versions.deep_view().contains(v));
            }
        }
        Ok(
            ChunkedAbiEntry {
                schema_version: expected,
                body: AbiBody {
                    functions: sort_by_name(functions),
                    root_schema: into_string_root_schema(generator),
                },
            },
        )
    }

    /// The document that the entry makes with the metadata of its contract.
    pub fn into_abi_root(self, metadata: AbiMetadata) -> (abi: AbiRoot)
        ensures
            abi.schema_version == self.schema_version,
            abi.metadata == metadata,
            abi.body == self.body,
    {
        AbiRoot { schema_version: self.schema_version, metadata, body: self.body }
    }
}

/// A batch without an entry cannot be combined.
pub proof fn lemma_combine_none(combined: Result<ChunkedAbiEntry, AbiCombineError>)
    requires
        is_combination(Seq::empty(), combined),
    ensures
        combined is Err,
        combined->Err_0@ is NoEntries,
{
}

/// A single entry is always combined, and comes back with its schema
/// version, its functions sorted by name, and a catalog made of its own
/// definitions, which defines the names that the entry defined.
pub proof fn lemma_combine_one(
    entry: ChunkedAbiEntry,
    combined: Result<ChunkedAbiEntry, AbiCombineError>,
)
    requires
        is_combination(seq![entry], combined),
    ensures
        combined is Ok,
        combined->Ok_0.schema_version == entry.schema_version,
        is_sorted_by_name(combined->Ok_0.body.functions@, entry.body.functions@),
        combined->Ok_0.body.root_schema == string_root_schema(
            root_definitions(entry.body.root_schema),
        ),
        root_definitions(combined->Ok_0.body.root_schema).dom() == root_definitions(
            entry.body.root_schema,
        ).dom(),
{
    let entries = seq![entry];
    assert(versions_agree(entries));
    assert(entries.drop_last() =~= Seq::<ChunkedAbiEntry>::empty());
    assert(entries.last() == entry);
    reveal_with_fuel(all_functions, 2);
    reveal_with_fuel(all_definitions, 2);
    assert(all_functions(entries) =~= entry.body.functions@);
    assert(all_definitions(entries) =~= root_definitions(entry.body.root_schema));
}

/// The combination succeeds exactly when there is an entry and all entries
/// have the schema version of the first.
pub proof fn lemma_combine_succeeds_iff_versions_agree(
    entries: Seq<ChunkedAbiEntry>,
    combined: Result<ChunkedAbiEntry, AbiCombineError>,
)
    requires
        is_combination(entries, combined),
    ensures
        combined is Ok <==> entries.len() > 0 && versions_agree(entries),
{
}

/// Where several entries define a name, the last of them decides what the
/// name stands for in the combined catalog; an entry that defines the name
/// decides unless a later entry defines it too.
pub proof fn lemma_last_definition_wins(entries: Seq<ChunkedAbiEntry>, i: int, name: Seq<char>)
    requires
        0 <= i < entries.len(),
        root_definitions(entries[i].body.root_schema).contains_key(name),
        forall|j: int|
            i < j < entries.len() ==> !root_definitions(
                (#[trigger] entries[j]).body.root_schema,
            ).contains_key(name),
    ensures
        all_definitions(entries).contains_key(name),
        all_definitions(entries)[name] == root_definitions(entries[i].body.root_schema)[name],
    decreases entries.len(),
{
    if i < entries.len() - 1 {
        let earlier = entries.drop_last();
        assert(earlier[i] == entries[i]);
        assert forall|j: int| i < j < earlier.len() implies !root_definitions(
            (#[trigger] earlier[j]).body.root_schema,
        ).contains_key(name) by {
            assert(earlier[j] == entries[j]);
        }
        lemma_last_definition_wins(earlier, i, name);
        assert(!root_definitions(entries[entries.len() - 1].body.root_schema).contains_key(name));
    }
}

/// The combined catalog defines a name exactly when some entry defines it.
pub proof fn lemma_all_definitions_names(entries: Seq<ChunkedAbiEntry>, name: Seq<char>)
    ensures
        all_definitions(entries).contains_key(name) <==> exists|i: int|
            0 <= i < entries.len() && root_definitions(
                (#[trigger] entries[i]).body.root_schema,
            ).contains_key(name),
    decreases entries.len(),
{
    if entries.len() > 0 {
        let earlier = entries.drop_last();
        lemma_all_definitions_names(earlier, name);
        if all_definitions(entries).contains_key(name) {
            if root_definitions(entries.last().body.root_schema).contains_key(name) {
                assert(entries[entries.len() - 1] == entries.last());
            } else {
                let i = choose|i: int|
                    0 <= i < earlier.len() && root_definitions(
                        (#[trigger] earlier[i]).body.root_schema,
                    ).contains_key(name);
                assert(entries[i] == earlier[i]);
            }
        }
        if exists|i: int|
            0 <= i < entries.len() && root_definitions(
                (#[trigger] entries[i]).body.root_schema,
            ).contains_key(name) {
            let i = choose|i: int|
                0 <= i < entries.len() && root_definitions(
                    (#[trigger] entries[i]).body.root_schema,
                ).contains_key(name);
            if i < entries.len() - 1 {
                assert(earlier[i] == entries[i]);
            }
        }
    }
}

} // verus!
