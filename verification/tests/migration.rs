use near_abi::legacy::migration::{
    fold_modifiers, function_v0_1_to_v0_2, function_v0_2_to_current, group_parameters,
    v0_1_abi_type_to_v0_2, v0_1_to_v0_2, v0_2_abi_type_to_current, v0_2_to_current,
    AbiMigrationError, ToBorshSchema, ToJsonSchema,
};
use near_abi::legacy::{migrate, v0_1, v0_2, SchemaGeneration, VersionedDocument};
use near_abi::{
    AbiBorshParameter, AbiFunctionKind, AbiFunctionModifier, AbiJsonParameter, AbiParameters,
    AbiRoot, AbiType, BuildInfo, SCHEMA_VERSION,
};
use schemars::schema::{RootSchema, Schema};
use std::collections::HashMap;

fn json_schema(name: &str) -> Schema {
    Schema::new_ref(format!("#/definitions/{}", name))
}

fn json_type(name: &str) -> v0_1::AbiType {
    v0_1::AbiType::Json { type_schema: json_schema(name) }
}

fn borsh_type() -> v0_1::AbiType {
    v0_1::AbiType::Borsh { type_schema: borsh::schema_container_of::<u32>() }
}

fn param(name: &str, typ: v0_1::AbiType) -> v0_1::AbiParameter {
    v0_1::AbiParameter { name: name.to_string(), typ }
}

fn old_function(name: &str, params: Vec<v0_1::AbiParameter>) -> v0_1::AbiFunction {
    v0_1::AbiFunction {
        name: name.to_string(),
        doc: Some(format!("does {}", name)),
        is_view: false,
        is_init: false,
        is_payable: false,
        is_private: false,
        params,
        callbacks: Vec::new(),
        callbacks_vec: None,
        result: None,
    }
}

fn flagged(is_view: bool, is_init: bool, is_payable: bool, is_private: bool) -> v0_2::AbiFunction {
    v0_2::AbiFunction {
        name: "flagged".to_string(),
        doc: None,
        is_view,
        is_init,
        is_payable,
        is_private,
        params: v0_2::AbiParameters::Json { args: Vec::new() },
        callbacks: Vec::new(),
        callbacks_vec: None,
        result: None,
    }
}

fn root_with_definition(name: &str) -> RootSchema {
    let mut root = RootSchema::default();
    root.definitions.insert(name.to_string(), Schema::Bool(true));
    root
}

fn old_metadata() -> v0_1::AbiMetadata {
    let mut other = HashMap::new();
    other.insert("license".to_string(), "MIT".to_string());
    other.insert("home".to_string(), "example.org".to_string());
    v0_1::AbiMetadata {
        name: Some("counter".to_string()),
        version: Some("1.2.3".to_string()),
        authors: vec!["Ann".to_string(), "Bob".to_string()],
        build: Some(BuildInfo {
            compiler: "rustc 1.70.0".to_string(),
            builder: "cargo-near 0.4.0".to_string(),
            image: Some("builder:1".to_string()),
        }),
        wasm_hash: Some("3yZe7d".to_string()),
        other,
    }
}

fn old_document(functions: Vec<v0_1::AbiFunction>) -> v0_1::AbiRoot {
    v0_1::AbiRoot {
        schema_version: "0.1.0".to_string(),
        metadata: old_metadata(),
        body: v0_1::AbiBody { functions, root_schema: root_with_definition("Point") },
    }
}

fn mixed_error(function: &str) -> AbiMigrationError {
    AbiMigrationError::MixedParameterSerialization { function: function.to_string() }
}

#[test]
fn view_and_payable_fold_to_view_with_payable() {
    let current = function_v0_2_to_current(flagged(true, false, true, false));
    assert_eq!(current.kind, AbiFunctionKind::View);
    assert_eq!(current.modifiers, vec![AbiFunctionModifier::Payable]);
}

#[test]
fn no_flag_folds_to_call_without_modifiers() {
    let current = function_v0_2_to_current(flagged(false, false, false, false));
    assert_eq!(current.kind, AbiFunctionKind::Call);
    assert_eq!(current.modifiers, Vec::<AbiFunctionModifier>::new());
}

#[test]
fn all_flags_fold_in_the_order_init_private_payable() {
    let current = function_v0_2_to_current(flagged(false, true, true, true));
    assert_eq!(current.kind, AbiFunctionKind::Call);
    assert_eq!(
        current.modifiers,
        vec![
            AbiFunctionModifier::Init,
            AbiFunctionModifier::Private,
            AbiFunctionModifier::Payable
        ]
    );
}

#[test]
fn each_flag_becomes_its_own_modifier() {
    assert_eq!(fold_modifiers(true, false, false), vec![AbiFunctionModifier::Init]);
    assert_eq!(fold_modifiers(false, true, false), vec![AbiFunctionModifier::Private]);
    assert_eq!(fold_modifiers(false, false, true), vec![AbiFunctionModifier::Payable]);
    assert_eq!(
        fold_modifiers(true, false, true),
        vec![AbiFunctionModifier::Init, AbiFunctionModifier::Payable]
    );
}

#[test]
fn json_then_borsh_is_rejected_at_every_length() {
    for extra in 0..4 {
        let mut params = vec![param("a", json_type("A")), param("b", borsh_type())];
        for i in 0..extra {
            let typ = if i % 2 == 0 { json_type("C") } else { borsh_type() };
            params.push(param(&format!("p{}", i), typ));
        }
        let document = old_document(vec![old_function("mixed", params)]);
        assert_eq!(v0_1_to_v0_2(document.clone()), Err(mixed_error("mixed")));
        assert_eq!(migrate(VersionedDocument::V0_1(document)), Err(mixed_error("mixed")));
    }
}

#[test]
fn borsh_then_json_is_rejected() {
    let params = vec![param("a", borsh_type()), param("b", json_type("B"))];
    assert_eq!(group_parameters(params.clone()), None);
    assert_eq!(function_v0_1_to_v0_2(old_function("f", params)), Err(mixed_error("f")));
}

#[test]
fn other_serialization_in_the_last_place_is_rejected() {
    let params = vec![
        param("a", json_type("A")),
        param("b", json_type("B")),
        param("c", borsh_type()),
    ];
    assert_eq!(group_parameters(params), None);
}

#[test]
fn the_error_names_the_first_mixed_function() {
    let mixed = || vec![param("a", json_type("A")), param("b", borsh_type())];
    let document = old_document(vec![
        old_function("fine", vec![param("a", json_type("A"))]),
        old_function("second", mixed()),
        old_function("third", mixed()),
    ]);
    assert_eq!(v0_1_to_v0_2(document), Err(mixed_error("second")));
}

#[test]
fn json_parameters_are_grouped_as_json() {
    let params = vec![param("a", json_type("A")), param("b", json_type("B"))];
    assert_eq!(
        group_parameters(params),
        Some(v0_2::AbiParameters::Json {
            args: vec![
                v0_2::AbiJsonParameter { name: "a".to_string(), type_schema: json_schema("A") },
                v0_2::AbiJsonParameter { name: "b".to_string(), type_schema: json_schema("B") },
            ]
        })
    );
}

#[test]
fn borsh_parameters_are_grouped_as_borsh() {
    let params = vec![param("a", borsh_type()), param("b", borsh_type())];
    let schema = borsh::schema_container_of::<u32>();
    assert_eq!(
        group_parameters(params),
        Some(v0_2::AbiParameters::Borsh {
            args: vec![
                v0_2::AbiBorshParameter { name: "a".to_string(), type_schema: schema.clone() },
                v0_2::AbiBorshParameter { name: "b".to_string(), type_schema: schema },
            ]
        })
    );
}

#[test]
fn no_parameter_is_grouped_as_json() {
    assert_eq!(
        group_parameters(Vec::new()),
        Some(v0_2::AbiParameters::Json { args: Vec::new() })
    );
}

#[test]
fn types_keep_their_descriptor() {
    assert_eq!(
        v0_1_abi_type_to_v0_2(json_type("A")),
        v0_2::AbiType::Json { type_schema: json_schema("A") }
    );
    assert_eq!(
        v0_1_abi_type_to_v0_2(borsh_type()),
        v0_2::AbiType::Borsh { type_schema: borsh::schema_container_of::<u32>() }
    );
    assert_eq!(
        v0_2_abi_type_to_current(v0_2::AbiType::Json { type_schema: json_schema("A") }),
        AbiType::Json { type_schema: json_schema("A") }
    );
    assert_eq!(
        v0_2_abi_type_to_current(v0_2::AbiType::Borsh {
            type_schema: borsh::schema_container_of::<u32>()
        }),
        AbiType::Borsh { type_schema: borsh::schema_container_of::<u32>() }
    );
}

#[test]
fn a_type_hands_out_the_schema_it_carries() {
    assert_eq!(json_type("A").to_json_schema(), json_schema("A"));
    assert_eq!(borsh_type().to_borsh_schema(), borsh::schema_container_of::<u32>());
}

#[test]
fn the_first_step_gives_a_version_0_2_document() {
    let mut function = old_function("get", vec![param("key", json_type("Key"))]);
    function.is_view = true;
    function.callbacks = vec![json_type("Cb"), borsh_type()];
    function.callbacks_vec = Some(json_type("Rest"));
    function.result = Some(borsh_type());
    let upgraded = v0_1_to_v0_2(old_document(vec![function])).unwrap();
    assert_eq!(upgraded.schema_version, "0.2.0");
    assert_eq!(upgraded.body.root_schema, root_with_definition("Point"));
    assert_eq!(
        upgraded.body.functions,
        vec![v0_2::AbiFunction {
            name: "get".to_string(),
            doc: Some("does get".to_string()),
            is_view: true,
            is_init: false,
            is_payable: false,
            is_private: false,
            params: v0_2::AbiParameters::Json {
                args: vec![v0_2::AbiJsonParameter {
                    name: "key".to_string(),
                    type_schema: json_schema("Key"),
                }]
            },
            callbacks: vec![
                v0_2::AbiType::Json { type_schema: json_schema("Cb") },
                v0_2::AbiType::Borsh { type_schema: borsh::schema_container_of::<u32>() },
            ],
            callbacks_vec: Some(v0_2::AbiType::Json { type_schema: json_schema("Rest") }),
            result: Some(v0_2::AbiType::Borsh {
                type_schema: borsh::schema_container_of::<u32>()
            }),
        }]
    );
}

#[test]
fn the_second_step_gives_a_current_document() {
    let mut function = flagged(true, false, false, true);
    function.params = v0_2::AbiParameters::Borsh {
        args: vec![v0_2::AbiBorshParameter {
            name: "n".to_string(),
            type_schema: borsh::schema_container_of::<u64>(),
        }],
    };
    function.result = Some(v0_2::AbiType::Json { type_schema: json_schema("Out") });
    let document = v0_2::AbiRoot {
        schema_version: "0.2.0".to_string(),
        metadata: v0_2::AbiMetadata::default(),
        body: v0_2::AbiBody { functions: vec![function], root_schema: root_with_definition("T") },
    };
    let current = v0_2_to_current(document);
    assert_eq!(current.schema_version, SCHEMA_VERSION);
    assert_eq!(current.schema_version, "0.4.0");
    assert_eq!(current.body.root_schema, root_with_definition("T"));
    assert_eq!(current.body.functions.len(), 1);
    let f = &current.body.functions[0];
    assert_eq!(f.name, "flagged");
    assert_eq!(f.kind, AbiFunctionKind::View);
    assert_eq!(f.modifiers, vec![AbiFunctionModifier::Private]);
    assert_eq!(
        f.params,
        AbiParameters::Borsh {
            args: vec![AbiBorshParameter {
                name: "n".to_string(),
                type_schema: borsh::schema_container_of::<u64>(),
            }]
        }
    );
    assert_eq!(f.result, Some(AbiType::Json { type_schema: json_schema("Out") }));
}

#[test]
fn metadata_survives_every_step() {
    let document = old_document(vec![old_function("f", Vec::new())]);
    let expected = old_metadata();
    let second = v0_1_to_v0_2(document.clone()).unwrap();
    assert_eq!(second.metadata.name, expected.name);
    assert_eq!(second.metadata.version, expected.version);
    assert_eq!(second.metadata.authors, expected.authors);
    assert_eq!(second.metadata.build, expected.build);
    assert_eq!(second.metadata.wasm_hash, expected.wasm_hash);
    assert_eq!(second.metadata.other, expected.other);
    let current = migrate(VersionedDocument::V0_1(document)).unwrap();
    assert_eq!(current.metadata.name, expected.name);
    assert_eq!(current.metadata.version, expected.version);
    assert_eq!(current.metadata.authors, expected.authors);
    assert_eq!(current.metadata.build, expected.build);
    assert_eq!(current.metadata.wasm_hash, expected.wasm_hash);
    assert_eq!(current.metadata.other, expected.other);
}

#[test]
fn a_version_0_1_document_and_its_version_0_2_equal_migrate_alike() {
    let mut first = old_function("set", vec![param("v", json_type("V"))]);
    first.is_payable = true;
    first.is_init = true;
    let mut second = old_function("sum", vec![param("a", borsh_type()), param("b", borsh_type())]);
    second.is_view = true;
    let old = old_document(vec![first, second]);

    let metadata = old_metadata();
    let built_by_hand = v0_2::AbiRoot {
        schema_version: "0.2.0".to_string(),
        metadata: v0_2::AbiMetadata {
            name: metadata.name,
            version: metadata.version,
            authors: metadata.authors,
            build: metadata.build,
            wasm_hash: metadata.wasm_hash,
            other: metadata.other,
        },
        body: v0_2::AbiBody {
            functions: vec![
                v0_2::AbiFunction {
                    name: "set".to_string(),
                    doc: Some("does set".to_string()),
                    is_view: false,
                    is_init: true,
                    is_payable: true,
                    is_private: false,
                    params: v0_2::AbiParameters::Json {
                        args: vec![v0_2::AbiJsonParameter {
                            name: "v".to_string(),
                            type_schema: json_schema("V"),
                        }],
                    },
                    callbacks: Vec::new(),
                    callbacks_vec: None,
                    result: None,
                },
                v0_2::AbiFunction {
                    name: "sum".to_string(),
                    doc: Some("does sum".to_string()),
                    is_view: true,
                    is_init: false,
                    is_payable: false,
                    is_private: false,
                    params: v0_2::AbiParameters::Borsh {
                        args: vec![
                            v0_2::AbiBorshParameter {
                                name: "a".to_string(),
                                type_schema: borsh::schema_container_of::<u32>(),
                            },
                            v0_2::AbiBorshParameter {
                                name: "b".to_string(),
                                type_schema: borsh::schema_container_of::<u32>(),
                            },
                        ],
                    },
                    callbacks: Vec::new(),
                    callbacks_vec: None,
                    result: None,
                },
            ],
            root_schema: root_with_definition("Point"),
        },
    };
    assert_eq!(v0_1_to_v0_2(old.clone()), Ok(built_by_hand.clone()));
    let from_old = migrate(VersionedDocument::V0_1(old)).unwrap();
    let from_second = migrate(VersionedDocument::V0_2(built_by_hand)).unwrap();
    assert_eq!(from_old, from_second);
    assert_eq!(from_old.body.functions[0].kind, AbiFunctionKind::Call);
    assert_eq!(
        from_old.body.functions[0].modifiers,
        vec![AbiFunctionModifier::Init, AbiFunctionModifier::Payable]
    );
    assert_eq!(
        from_old.body.functions[0].params,
        AbiParameters::Json {
            args: vec![AbiJsonParameter { name: "v".to_string(), type_schema: json_schema("V") }]
        }
    );
}

#[test]
fn a_current_document_is_left_alone() {
    let current = v0_2_to_current(v0_2::AbiRoot {
        schema_version: "0.2.0".to_string(),
        metadata: v0_2::AbiMetadata::default(),
        body: v0_2::AbiBody {
            functions: vec![flagged(true, true, false, false)],
            root_schema: root_with_definition("T"),
        },
    });
    let copy: AbiRoot = current.clone();
    assert_eq!(migrate(VersionedDocument::Current(current)), Ok(copy));
}

#[test]
fn a_document_knows_its_shape() {
    let old = old_document(Vec::new());
    assert_eq!(VersionedDocument::V0_1(old.clone()).generation(), SchemaGeneration::V0_1);
    let second = v0_1_to_v0_2(old).unwrap();
    assert_eq!(VersionedDocument::V0_2(second.clone()).generation(), SchemaGeneration::V0_2);
    let current = v0_2_to_current(second);
    assert_eq!(VersionedDocument::Current(current).generation(), SchemaGeneration::Current);
}

#[test]
fn an_empty_parameter_list_is_empty() {
    assert!(AbiParameters::default().is_empty());
    assert_eq!(AbiParameters::default(), AbiParameters::Json { args: Vec::new() });
    assert!(AbiParameters::Borsh { args: Vec::new() }.is_empty());
    assert!(!AbiParameters::Json {
        args: vec![AbiJsonParameter { name: "a".to_string(), type_schema: json_schema("A") }]
    }
    .is_empty());
}
