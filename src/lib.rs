//! A multi-line text-editing buffer with a single cursor, driven by key input.

pub mod keys;
pub mod laws;
pub mod model;
pub mod render;
pub mod textarea;

pub use keys::{Input, Key};
pub use model::EditorState;
pub use textarea::{RowView, TextArea};
