//! The editing core of a source-code text editor: a rope-backed text store,
//! the coordinate model that maps between line/character positions and raw
//! offsets, a viewport model, and an incremental syntax-highlight index.

pub mod buffer;
pub mod color_selector;
pub mod diagnostics;
pub mod document;
pub mod document_change;
pub mod highlight;
pub mod keys;
pub mod position;
pub mod rope_store;
pub mod selection;
pub mod text_model;
pub mod window;
