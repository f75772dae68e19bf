//! Structure-of-arrays iterator synthesis, verified.
//!
//! Given a record type with N >= 1 fields, a structure-of-arrays layout
//! stores each field in its own parallel column. Iterating such a layout
//! means zipping N column cursors into a single stream of per-record
//! views. This crate contains the synthesizer that plans those iterators
//! and a columnar runtime model that executes the planned step function:
//!
//! - [`expr`] builds the pairwise-nested zip type expression, the matching
//!   value-level construction expression, and the flattened chained-zip
//!   expression, and proves the three structurally isomorphic.
//! - [`soa`] is the columnar container model: per-field cursors, the step
//!   function that advances every cursor once and gates termination on the
//!   first field, and the record views the steps assemble.
//! - [`synth`] drives the whole synthesis for one record description and
//!   decides which default-iteration conversions are generated.

pub mod expr;
pub mod soa;
pub mod synth;
