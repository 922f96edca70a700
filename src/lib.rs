//! Schema-driven validators for text values.
//!
//! A schema names constraints on a text value; dispatch picks the narrowest
//! validator able to enforce them, and the validator checks (and possibly
//! transforms) each input value, returning the result or a classified error.
pub mod errors;
pub mod laws;
pub mod pattern;
pub mod schema;
pub mod text;
pub mod validators;
