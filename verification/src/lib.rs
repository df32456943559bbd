//! Client-side decoding and querying of Substrate runtime metadata.
//!
//! A node reports its metadata as bytes in the SCALE encoding: a magic
//! number, a version tag, and a body whose layout the version fixes. This
//! crate decodes the versions 12, 13 and 14 ([`metadata::decode`]), finds a
//! module or pallet by its name ([`lookup::resolve`]) and shows the result as
//! indented JSON text ([`render::render`]). The layouts are data
//! ([`shape::Shape`], [`schema`]); what the decoder computes is stated once,
//! for every layout, by the parser in [`codec`], and [`laws`] proves what
//! holds of it.

pub mod cli;
pub mod codec;
pub mod fetch;
pub mod laws;
pub mod lookup;
pub mod metadata;
pub mod node;
pub mod reader;
pub mod render;
pub mod rpc;
pub mod schema;
pub mod shape;
pub mod wire;
pub mod writer;
pub mod xassets;

pub use crate::fetch::{FetchError, RawMetadataBlob};
pub use crate::lookup::{resolve, Component, LookupError, LookupResult};
pub use crate::metadata::{decode, VersionedMetadata};
pub use crate::render::render;
pub use crate::wire::DecodeError;
pub use crate::writer::encode;
