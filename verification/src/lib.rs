//! Core of a module transpiler for a module-serving backend.
//!
//! The crate classifies a module's source type, plans the ordered and
//! conditionally gated transform stages, resolves and rewrites import/export
//! specifiers while recording dependency descriptors, prunes the recorded
//! dependency list against the emitted text, and extracts export names from a
//! parsed module.  Parsing and code emission themselves are collaborators
//! outside this crate; everything here is pure computation on plain values.

pub mod error;
pub mod export_names;
pub mod pipeline;
pub mod paths;
pub mod resolver;
pub mod source_type;
pub mod text;
pub mod tree_shake;
