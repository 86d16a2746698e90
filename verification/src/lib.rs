//! Build-time struct transformer: given a schema describing a source record
//! type and per-field transformation directives, compute two companion record
//! descriptions — an owned "baked" variant and a borrowed "view" variant —
//! plus the two conversion methods that map a source instance into each.
//!
//! The schema arrives already decoded into plain values; the result is an
//! abstract description of the declarations to emit. Decoding attribute
//! syntax and rendering the description back into tokens are the callers'
//! concern.

pub mod adapt;
pub mod bake;
pub mod classify;
pub mod consistency;
pub mod diag;
pub mod emit;
pub mod eval;
pub mod laws;
pub mod schema;
