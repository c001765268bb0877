//! The interactive core of a minimal terminal text editor: key decoding,
//! a bounded cursor, screen rendering and raw-mode bookkeeping.
pub mod editor;
pub mod error;
pub mod keys;
pub mod render;
pub mod terminal;

pub use keys::{ctrl, read_key};
