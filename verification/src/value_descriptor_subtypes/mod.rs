//! Semantic wrappers for the concrete value descriptor families.
pub mod constraints;
pub mod enum_value_descriptor;
pub mod helpers;
pub mod integer_value_descriptor;
pub mod string_value_descriptor;
pub mod value_array_descriptor;
