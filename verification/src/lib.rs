//! Core logic of an edge-entry compile step: candidate filename generation,
//! entry-kind classification, export-surface validation, diagnostic
//! construction, and the synthesis plan for the runtime wrapper module.

pub mod entry;
pub mod exports;
pub mod files;
pub mod issue;
pub mod strings;
pub mod synthesis;
