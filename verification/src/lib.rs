//! Generates trivial `demo` constructors for product and sum types.
//!
//! The crate works on a plain model of an already-parsed type declaration:
//! per-field configuration attributes are parsed and checked, each field is
//! classified into a parameter-and-initializer descriptor, and one
//! constructor definition is synthesized per constructible shape.

pub mod ast;
pub mod attr;
pub mod case;
pub mod classify;
pub mod error;
pub mod laws;
pub mod lints;
pub mod render;
pub mod strings;
pub mod synth;

