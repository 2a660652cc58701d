//! Conversions used when (de)serializing lyrics.
pub mod bool_from_int;
pub mod lines_from_string;
