//! Core of a license-file generator.
//!
//! The library resolves case-insensitive user identifiers to canonical
//! license variants, renders each license's template with optional user
//! metadata, and computes the output file names for a batch of licenses.
//! All file and console I/O is left to the caller.

pub mod batch;
pub mod license;
pub mod naming;
pub mod render;
pub mod template;
