//! The type descriptors that an ABI document carries, and the catalog of
//! named definitions that its functions refer to.
//!
//! The descriptors belong to `schemars` and `borsh`. The library moves them
//! from one document to another and never looks inside them. What it knows of
//! a catalog is the map from the names of its definitions to their schemas.

use vstd::prelude::*;

verus! {

/// `schemars::schema::Schema`: the JSON Schema of one type. Verus sees nothing
/// inside a value of it.
#[verifier::external_type_specification]
#[verifier::external_body]
pub struct ExSchema(schemars::schema::Schema);

/// `schemars::schema::RootSchema`: a JSON Schema document together with the
/// definitions that it names. Verus sees nothing inside a value of it.
#[verifier::external_type_specification]
#[verifier::external_body]
pub struct ExRootSchema(schemars::schema::RootSchema);

/// `schemars::SchemaGenerator`: what `schemars` builds a schema document with.
/// Verus sees nothing inside a value of it.
#[verifier::external_type_specification]
#[verifier::external_body]
pub struct ExSchemaGenerator(schemars::SchemaGenerator);

/// `borsh::schema::BorshSchemaContainer`: the Borsh layout of one type. Verus
/// sees nothing inside a value of it.
#[verifier::external_type_specification]
#[verifier::external_body]
pub struct ExBorshSchemaContainer(borsh::schema::BorshSchemaContainer);

/// `Clone::clone` of `schemars::schema::Schema`, which `schemars` derives: the
/// copy is the same schema.
pub assume_specification[ <schemars::schema::Schema as Clone>::clone ](
    schema: &schemars::schema::Schema,
) -> (copy: schemars::schema::Schema)
    ensures
        copy == *schema,
;

/// `Clone::clone` of `schemars::schema::RootSchema`, which `schemars` derives:
/// the copy is the same document.
pub assume_specification[ <schemars::schema::RootSchema as Clone>::clone ](
    root: &schemars::schema::RootSchema,
) -> (copy: schemars::schema::RootSchema)
    ensures
        copy == *root,
;

/// `Clone::clone` of `borsh::schema::BorshSchemaContainer`, which `borsh`
/// derives: the copy is the same container.
pub assume_specification[ <borsh::schema::BorshSchemaContainer as Clone>::clone ](
    container: &borsh::schema::BorshSchemaContainer,
) -> (copy: borsh::schema::BorshSchemaContainer)
    ensures
        copy == *container,
;

/// The definitions of a schema document, by name: its field `definitions`.
pub uninterp spec fn root_definitions(root: schemars::schema::RootSchema) -> Map<
    Seq<char>,
    schemars::schema::Schema,
>;

/// The definitions that a generator has collected, by name: what its method
/// `definitions` borrows.
pub uninterp spec fn generator_definitions(generator: schemars::SchemaGenerator) -> Map<
    Seq<char>,
    schemars::schema::Schema,
>;

/// Whether a generator still has the settings that `SchemaGenerator::default`
/// gave it.
pub uninterp spec fn has_default_settings(generator: schemars::SchemaGenerator) -> bool;

/// The schema document that a generator with default settings makes for
/// `String` out of the definitions it holds.
pub uninterp spec fn string_root_schema(
    definitions: Map<Seq<char>, schemars::schema::Schema>,
) -> schemars::schema::RootSchema;

/// `SchemaGenerator::default`: a generator with the default settings and no
/// definition.
#[verifier::external_body]
pub(crate) fn new_generator() -> (generator: schemars::SchemaGenerator)
    ensures
        forall|name: Seq<char>| !generator_definitions(generator).contains_key(name),
        has_default_settings(generator),
{
    schemars::SchemaGenerator::default()
}

/// `SchemaGenerator::definitions_mut`, extended with a copy of the definitions
/// of `root`. The definitions are a map, and extending a map replaces the
/// schema of a name that it already holds: the generator then has those of
/// `root` and, under the other names, what it had. Its settings stay.
#[verifier::external_body]
pub(crate) fn extend_definitions(
    generator: &mut schemars::SchemaGenerator,
    root: &schemars::schema::RootSchema,
)
    ensures
        generator_definitions(*final(generator)) == generator_definitions(
            *old(generator),
        ).union_prefer_right(root_definitions(*root)),
        has_default_settings(*final(generator)) == has_default_settings(*old(generator)),
{
    generator.definitions_mut().extend(root.definitions.clone());
}

/// `SchemaGenerator::into_root_schema_for::<String>`. With default settings the
/// document depends on the generator's definitions alone, and it defines the
/// names that the generator held, no others.
#[verifier::external_body]
pub(crate) fn into_string_root_schema(generator: schemars::SchemaGenerator) -> (root:
    schemars::schema::RootSchema)
    requires
        has_default_settings(generator),
    ensures
        root == string_root_schema(generator_definitions(generator)),
        root_definitions(root).dom() == generator_definitions(generator).dom(),
{
    generator.into_root_schema_for::<String>()
}

} // verus!
