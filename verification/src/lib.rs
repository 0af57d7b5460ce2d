//! A verified core for a command-line image utility.
//!
//! The library owns everything that can be stated and proved: the catalogue
//! of operations with their parameter bounds, the envelope of checks that
//! precedes every operation, the canonical mapping from file extensions to
//! image formats, and the exact text of inspection reports. Decoding,
//! transforming and encoding pixels is delegated to the `image` crate through
//! a narrow set of trusted adapters; reading and writing the filesystem is
//! left to the thin unverified shell around the library.

pub mod commands;
pub mod decimal;
pub mod errors;
pub mod format;
pub mod imaging;
pub mod ops;
pub mod pathname;
pub mod pipeline;
pub mod report;
