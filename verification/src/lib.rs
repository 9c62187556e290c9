//! A railway infrastructure model: tracks, nodes and trackside objects, the
//! scenarios run on them, and the editing operations of the model that an
//! editor front-end applies to it.

pub mod canvas;
pub mod dgraph;
pub mod infrastructure;
pub mod interlocking;
pub mod issue;
pub mod laws;
pub mod model;
pub mod scenario;
pub mod schematic;
pub mod vehicle;
pub mod view;
