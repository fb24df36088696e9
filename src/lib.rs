//! An indentation-based text format for structured values: braces and
//! brackets, `key = value` lines, no commas, and strings written without
//! surrounding quotes.

pub mod decimal;
pub mod text;
pub mod escape;
pub mod value;
pub mod spa_json_serializer;
pub mod laws;
