//! What a report looks like: as plain text and as a JSON document.

pub mod json;
pub mod text;
