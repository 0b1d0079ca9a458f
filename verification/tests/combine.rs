use near_abi::chunked::{AbiCombineErrorKind, ChunkedAbiEntry};
use near_abi::sorting::sort_by_name;
use near_abi::text::{join, str_le};
use near_abi::{
    AbiBody, AbiFunction, AbiFunctionKind, AbiMetadata, AbiParameters, SCHEMA_VERSION,
};
use schemars::schema::{InstanceType, RootSchema, Schema, SingleOrVec};

fn function(name: &str) -> AbiFunction {
    documented(name, None)
}

fn documented(name: &str, doc: Option<&str>) -> AbiFunction {
    AbiFunction {
        name: name.to_string(),
        doc: doc.map(|d| d.to_string()),
        kind: AbiFunctionKind::View,
        modifiers: Vec::new(),
        params: AbiParameters::default(),
        callbacks: Vec::new(),
        callbacks_vec: None,
        result: None,
    }
}

fn entry(version: &str, names: &[&str]) -> ChunkedAbiEntry {
    ChunkedAbiEntry {
        schema_version: version.to_string(),
        body: AbiBody {
            functions: names.iter().map(|n| function(n)).collect(),
            root_schema: RootSchema::default(),
        },
    }
}

fn catalog(definitions: &[(&str, Schema)]) -> RootSchema {
    let mut root = RootSchema::default();
    for (name, schema) in definitions {
        root.definitions.insert(name.to_string(), schema.clone());
    }
    root
}

fn names(functions: &[AbiFunction]) -> Vec<String> {
    functions.iter().map(|f| f.name.clone()).collect()
}

#[test]
fn entries_of_one_version_are_combined_and_sorted() {
    let combined = ChunkedAbiEntry::combine(vec![
        entry("0.3.0", &["b", "a"]),
        entry("0.3.0", &["c"]),
        entry("0.3.0", &[]),
    ])
    .unwrap();
    assert_eq!(combined.schema_version, "0.3.0");
    assert_eq!(names(&combined.body.functions), vec!["a", "b", "c"]);
}

#[test]
fn other_versions_are_all_named_sorted_and_once() {
    let error = ChunkedAbiEntry::combine(vec![
        entry("0.3.0", &["a"]),
        entry("0.2.0", &["b"]),
        entry("0.3.0", &["c"]),
        entry("0.4.0", &["d"]),
    ])
    .unwrap_err();
    assert_eq!(
        error.kind(),
        &AbiCombineErrorKind::SchemaVersionConflict {
            expected: "0.3.0".to_string(),
            found: vec!["0.2.0".to_string(), "0.4.0".to_string()],
        }
    );
}

#[test]
fn a_version_that_recurs_is_named_once() {
    let error = ChunkedAbiEntry::combine(vec![
        entry("0.3.0", &[]),
        entry("0.5.0", &[]),
        entry("0.1.0", &[]),
        entry("0.5.0", &[]),
        entry("0.3.0", &[]),
        entry("0.1.0", &[]),
        entry("0.10.0", &[]),
    ])
    .unwrap_err();
    assert_eq!(
        error.kind(),
        &AbiCombineErrorKind::SchemaVersionConflict {
            expected: "0.3.0".to_string(),
            found: vec!["0.1.0".to_string(), "0.10.0".to_string(), "0.5.0".to_string()],
        }
    );
}

#[test]
fn the_first_entry_sets_the_version() {
    let error =
        ChunkedAbiEntry::combine(vec![entry("0.2.0", &[]), entry("0.3.0", &[])]).unwrap_err();
    assert_eq!(
        error.kind(),
        &AbiCombineErrorKind::SchemaVersionConflict {
            expected: "0.2.0".to_string(),
            found: vec!["0.3.0".to_string()],
        }
    );
    let error =
        ChunkedAbiEntry::combine(vec![entry("0.3.0", &[]), entry("0.2.0", &[])]).unwrap_err();
    assert_eq!(
        error.kind(),
        &AbiCombineErrorKind::SchemaVersionConflict {
            expected: "0.3.0".to_string(),
            found: vec!["0.2.0".to_string()],
        }
    );
}

#[test]
fn no_entry_cannot_be_combined() {
    let error = ChunkedAbiEntry::combine(Vec::new()).unwrap_err();
    assert_eq!(error.kind(), &AbiCombineErrorKind::NoEntries);
    assert_eq!(error.message(), "no ABI entries to combine");
}

#[test]
fn one_entry_comes_back_sorted() {
    let mut one = entry("0.7.1", &["delta", "alpha", "charlie", "bravo"]);
    one.body.root_schema = catalog(&[("Point", Schema::Bool(true))]);
    let combined = ChunkedAbiEntry::combine(vec![one]).unwrap();
    assert_eq!(combined.schema_version, "0.7.1");
    assert_eq!(names(&combined.body.functions), vec!["alpha", "bravo", "charlie", "delta"]);
    assert_eq!(combined.body.root_schema.definitions, catalog(&[("Point", Schema::Bool(true))]).definitions);
}

#[test]
fn functions_of_one_name_keep_their_order() {
    let first = ChunkedAbiEntry {
        schema_version: "0.4.0".to_string(),
        body: AbiBody {
            functions: vec![
                documented("same", Some("first")),
                documented("z", None),
                documented("same", Some("second")),
            ],
            root_schema: RootSchema::default(),
        },
    };
    let second = ChunkedAbiEntry {
        schema_version: "0.4.0".to_string(),
        body: AbiBody {
            functions: vec![documented("a", None), documented("same", Some("third"))],
            root_schema: RootSchema::default(),
        },
    };
    let combined = ChunkedAbiEntry::combine(vec![first, second]).unwrap();
    assert_eq!(
        combined.body.functions,
        vec![
            documented("a", None),
            documented("same", Some("first")),
            documented("same", Some("second")),
            documented("same", Some("third")),
            documented("z", None),
        ]
    );
}

#[test]
fn names_are_ordered_byte_by_byte() {
    let sorted = sort_by_name(vec![
        function("b"),
        function("a"),
        function("B"),
        function(""),
        function("ab"),
        function("é"),
        function("z"),
        function("_x"),
        function("a"),
    ]);
    assert_eq!(names(&sorted), vec!["", "B", "_x", "a", "a", "ab", "b", "z", "é"]);
    let mut by_std = names(&sorted);
    by_std.sort();
    assert_eq!(names(&sorted), by_std);
}

#[test]
fn texts_are_compared_as_strings_are() {
    let texts = ["", "a", "ab", "b", "B", "é", "e", "\u{10000}", "\u{ffff}", "zz", "z"];
    for a in texts {
        for b in texts {
            assert_eq!(str_le(a, b), a <= b);
        }
    }
}

#[test]
fn texts_are_joined_with_the_separator_between() {
    let parts = |texts: &[&str]| texts.iter().map(|t| t.to_string()).collect::<Vec<String>>();
    assert_eq!(join(&parts(&[]), ", "), "");
    assert_eq!(join(&parts(&["a"]), ", "), "a");
    assert_eq!(join(&parts(&["a", "b", "c"]), ", "), "a, b, c");
    assert_eq!(join(&parts(&["", ""]), "-"), "-");
}

#[test]
fn a_conflict_says_what_was_expected_and_found() {
    let error = ChunkedAbiEntry::combine(vec![
        entry("0.3.0", &[]),
        entry("0.4.0", &[]),
        entry("0.2.0", &[]),
    ])
    .unwrap_err();
    assert_eq!(
        error.message(),
        "ABI schema version conflict: expected 0.3.0, found 0.2.0, 0.4.0"
    );
    assert_eq!(error.kind().message(), error.message());
}

#[test]
fn catalogs_are_merged_and_the_last_definition_of_a_name_wins() {
    let string_type = Schema::Object(schemars::schema::SchemaObject {
        instance_type: Some(SingleOrVec::Single(Box::new(InstanceType::String))),
        ..Default::default()
    });
    let mut first = entry("0.4.0", &["a"]);
    first.body.root_schema =
        catalog(&[("Point", Schema::Bool(true)), ("Name", string_type.clone())]);
    let mut second = entry("0.4.0", &["b"]);
    second.body.root_schema =
        catalog(&[("Point", Schema::Bool(false)), ("Id", Schema::Bool(true))]);
    let combined = ChunkedAbiEntry::combine(vec![first.clone(), second.clone()]).unwrap();
    assert_eq!(
        combined.body.root_schema.definitions,
        catalog(&[
            ("Point", Schema::Bool(false)),
            ("Name", string_type.clone()),
            ("Id", Schema::Bool(true)),
        ])
        .definitions
    );
    let reversed = ChunkedAbiEntry::combine(vec![second, first]).unwrap();
    assert_eq!(reversed.body.root_schema.definitions["Point"], Schema::Bool(true));
}

#[test]
fn the_combined_catalog_is_a_schema_for_strings() {
    let mut one = entry("0.4.0", &[]);
    one.body.root_schema = catalog(&[("Point", Schema::Bool(true))]);
    one.body.root_schema.meta_schema = Some("elsewhere".to_string());
    let root = ChunkedAbiEntry::combine(vec![one]).unwrap().body.root_schema;
    assert_eq!(
        root.meta_schema,
        Some("http://json-schema.org/draft-07/schema#".to_string())
    );
    assert_eq!(
        root.schema.instance_type,
        Some(SingleOrVec::Single(Box::new(InstanceType::String)))
    );
    assert_eq!(root.schema.metadata.unwrap().title, Some("String".to_string()));
    assert_eq!(root.definitions.len(), 1);
}

#[test]
fn a_new_entry_has_the_current_version() {
    let root = catalog(&[("Point", Schema::Bool(true))]);
    let new = ChunkedAbiEntry::new(vec![function("b"), function("a")], root.clone());
    assert_eq!(new.schema_version, SCHEMA_VERSION);
    assert_eq!(names(&new.body.functions), vec!["b", "a"]);
    assert_eq!(new.body.root_schema, root);
}

#[test]
fn an_entry_becomes_a_document_with_its_metadata() {
    let new = ChunkedAbiEntry::new(vec![function("a")], catalog(&[("T", Schema::Bool(true))]));
    let metadata = AbiMetadata {
        name: Some("counter".to_string()),
        authors: vec!["Ann".to_string()],
        ..Default::default()
    };
    let abi = new.clone().into_abi_root(metadata.clone());
    assert_eq!(abi.schema_version, new.schema_version);
    assert_eq!(abi.metadata, metadata);
    assert_eq!(abi.body, new.body);
}
