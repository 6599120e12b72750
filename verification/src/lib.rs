//! Packaging of an externally compiled bytecode program into a finalized,
//! self-describing executable artifact: structural type resolution over the
//! program's type-declaration table, entry-point calling-convention
//! derivation, reduction of the assembled words into the field, a
//! program-counter-keyed hint map, and a nested bytecode segmentation.

pub mod builtins;
pub mod cairo_compile;
pub mod cairo_run_compile;
pub mod error;
pub mod exec_scope;
pub mod hints;
pub mod segment;
pub mod type_resolver;
pub mod types;
pub mod word;
