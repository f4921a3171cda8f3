//! Reports on a package of a registry: the record the registry keeps of it,
//! rendered as aligned text.

pub mod crates;
pub mod document;
pub mod report;
pub mod text;
pub mod timestamp;
