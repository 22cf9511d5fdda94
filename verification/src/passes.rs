//! Walks over a finished syntax tree.
pub mod visit_debug;
pub mod visit_def;
