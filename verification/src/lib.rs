//! A typed model of exported design documents.
//!
//! A document arrives as a tree of primitives (`raw`, read from JSON text
//! by `json`). `document::decode` turns it into a `file::File`, the typed
//! tree of `file::Node`s, or names the first failure (`error`). The rules of
//! decoding are written down as functions on the mathematical model of the
//! raw document (`field`, `token`, `shape`, `style`, `paint`, `node`,
//! `document`), and every decoder is proved to compute exactly what they
//! say. `render::render` walks a decoded file in pre-order, with an explicit
//! stack, and writes one node name per line.

pub mod document;
pub mod error;
pub mod field;
pub mod file;
pub mod json;
pub mod node;
pub mod paint;
pub mod raw;
pub mod render;
pub mod shape;
pub mod style;
pub mod token;
