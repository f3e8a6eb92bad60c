//! Typed metadata of a non-fungible token in the OpenSea convention, and the
//! codec between it and a JSON value.
//!
//! [`Metadata`] is the record, [`AttributeEntry`] and [`DisplayType`] are its
//! parts, and [`Value`] is the JSON value that [`Metadata::decode`] reads and
//! [`Metadata::encode`] writes. A document that is not decoded gives a
//! [`DecodeError`], which says where it went wrong and what stood there.
//!
//! Every function states what it returns over the mathematical forms of
//! these types ([`value::Json`], [`attribute::Attribute`],
//! [`metadata::Record`], [`error::Failure`]), and [`laws`] proves what holds
//! of the codec as a whole. Three crates do what is not this library's own
//! work: `url` parses and prints links, `hex` reads and writes hexadecimal
//! text, and `rgb` holds the color. The claims made of them stand in
//! [`link`], [`base16`] and [`rgb8_fromhex_opt`], and are not proved.

pub mod attribute;
pub mod base16;
pub mod error;
pub mod fields;
pub mod laws;
pub mod link;
pub mod metadata;
pub mod rgb8_fromhex_opt;
pub mod value;

pub use attribute::{AttributeEntry, DisplayType};
pub use error::DecodeError;
pub use metadata::Metadata;
pub use value::{Number, Value};
