//! Tools for reading the data files of a legacy game: a schema-driven parser
//! for its line-oriented configuration grammar, plus helpers for its archive
//! container and binary formats.
//!
//! The parsing engine is one generic interpreter ([`parser`]) driven by
//! per-type schema tables ([`schema`]); the typed record structs of the
//! supported file formats ([`campaign_defs`], [`image_defs`], [`mtf`],
//! [`window_base`]) are read off its output.

pub mod campaign_defs;
pub mod coerce;
pub mod common;
pub mod config;
pub mod data_dir;
pub mod fields;
pub mod fm;
pub mod gut;
pub mod image_defs;
pub mod io;
pub mod mtf;
pub mod parser;
pub mod raw;
pub mod schema;
pub mod smf;
pub mod tokenize;
pub mod window_base;
