//! A cursor-based traversal layer for a self-describing, richly-typed
//! hierarchical document format: documents are materialized trees of
//! `Element` nodes (nulls, scalars, and three container kinds), and a
//! `RawElementReader` walks one tree node-by-node through a pull protocol
//! (advance / step-in / step-out / field-name / typed reads), exposing the
//! value under the cursor as one alternative of a closed tagged union.

pub mod element;
pub mod laws;
pub mod raw_element_reader;
pub mod result;
pub mod template;
pub mod types;
pub mod value_ref;
