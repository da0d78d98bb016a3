//! Decoding of Jupyter IOPub messages into a closed message model, and the
//! per-cell state that a notebook keeps from them.

pub mod json;
pub mod field;
pub mod content;
pub mod header;
pub mod message;
pub mod notebook;
