//! Code generation for mapping database rows onto record types.
//!
//! A record declaration is described with plain values ([`generate::RecordDecl`]):
//! [`generate::impl_derive`] validates it and emits the Rust source of the row
//! converters and SQL metadata accessors for it. [`rows::map_row`] performs, on a
//! row held in memory, the lookups that the emitted fallible converters make, and
//! [`laws`] states what holds across these functions.

pub mod schema;
pub mod attr;
pub mod text;
pub mod emit;
pub mod generate;
pub mod rows;
pub mod laws;
