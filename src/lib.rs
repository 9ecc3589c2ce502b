//! A decoder for document fields that may be written either as a string, to
//! be parsed into the target type, or as a map of the target's fields.

pub mod decode;
pub mod lemmas;
pub mod value;
