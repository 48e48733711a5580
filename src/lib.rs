//! Core of a small modal terminal text editor: input translation, editor
//! state, and a renderer that turns the state into terminal draw commands.
pub mod buffer;
pub mod editor;
pub mod input;
pub mod render;

pub use buffer::Buffer;
pub use editor::{Command, Editor};
pub use input::{Action, Input, Key, Mode};
pub use render::{DrawOp, Rgb, Style};
