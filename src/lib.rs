//! Build-time decisions for generating libfuse / libcuse bindings: which API
//! version is requested, which native package to use, where the header is,
//! which compiler flags to hand the generator and which symbols it may emit.
//! Each decision is a verified function from plain values to plain values.

pub mod text;
pub mod error;
pub mod version;
pub mod library;
pub mod header;
pub mod flags;
pub mod filter;
pub mod plan;
