//! Companion-code synthesis for record declarations.
//!
//! A declaration is read, its fields are classified, their annotations are
//! interpreted, and a companion is synthesized: a builder that accumulates
//! field values and validates them, or a debug formatter that renders them.

pub mod annotation;
pub mod builder;
pub mod classify;
pub mod debug;
pub mod diagnostic;
pub mod field;
pub mod format;
pub mod formatter;
pub mod laws;
pub mod reader;
pub mod runtime;
pub mod syntax;
pub mod text;
pub mod value;
