//! JSON text of lists, and the JSON tool's document analysis.

pub mod lists;
pub mod values;
