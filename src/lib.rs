//! Parsing and validation of the PE/COFF header chain of a managed (CLI)
//! image, and an object model for resolving metadata type identities.

pub mod bits;
pub mod cursor;
pub mod error;
pub mod dos;
pub mod coff;
pub mod optional;
pub mod validate;
pub mod image;
pub mod cor;
