pub mod avro;
pub mod document;
pub mod model;
pub mod mongify;
pub mod packet;
pub mod store;
pub mod worker;

use vstd::prelude::*;

verus! {

/// Errors reported by the schema registry layer.
#[derive(Debug, Clone, Copy, PartialEq, Eq, Structural)]
pub enum SchemaRegistryError {
    ConnectionError,
    ParsingError,
    InvalidSubject,
    InvalidVersion,
    InvalidSchema,
}

/// Errors of alert decoding and persistence, surfaced to the caller unchanged.
/// `AlertExists` signals a duplicate packet, which the surrounding pipeline
/// treats as non-fatal.
#[derive(Debug, Clone, Copy, PartialEq, Eq, Structural)]
pub enum AlertError {
    MagicBytesError,
    DecodeError,
    SchemaRegistry(SchemaRegistryError),
    AlertExists,
    InsertAlertError,
    InsertCutoutError,
    FindObjectIdError,
    InsertAuxAlertError,
    UpdateAuxAlertError,
}

} // verus!
