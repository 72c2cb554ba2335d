//! Drawing data: colors, patterns, bitmap pixels and the drawing context stack.

pub mod bitmap;
pub mod bitmap_data;
pub mod color;
pub mod context_stack;
pub mod generation;
