//! Decoding of IGC flight-recorder logs.
//!
//! An IGC file is line-oriented text. The first character of a line, a letter
//! from `A` to `L`, selects the record grammar; the remaining characters sit in
//! fixed columns. Columns are counted in characters, the leading letter being
//! column 0.
//!
//! Every decoder is total: each input yields either a record or a classified
//! [`error::IGCError`].

/// The pass over a whole file.
pub mod collector;
/// Classified decoding failures.
pub mod error;
/// Decoding a whole file into one sequence of outcomes per record kind.
pub mod igc_file;
/// Choosing which record kinds a whole-file pass collects.
pub mod parser_builder;
/// The record kinds and the line dispatcher.
pub mod records;
/// Characters, decimal fields and lines.
pub mod text;
