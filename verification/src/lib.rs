//! ABI documents of a contract: their model, the upgrade of older schema
//! versions to the current one, and the merging of partial documents.

pub mod abi;
pub mod chunked;
pub mod json;
pub mod legacy;
pub mod schema;
pub mod sorting;
pub mod text;
pub mod version;

pub use abi::{
    AbiBody, AbiBorshParameter, AbiFunction, AbiFunctionKind, AbiFunctionModifier,
    AbiJsonParameter, AbiMetadata, AbiParameters, AbiRoot, AbiType, BuildInfo, SCHEMA_VERSION,
};
