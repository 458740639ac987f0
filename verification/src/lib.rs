//! Core of a modal, terminal-resident text editor.
//!
//! The crate owns the editing logic: the line buffer with its tab-expanded
//! render cache, the viewport/cursor controller, the modal key dispatcher
//! with vim-style motions, the command interpreter, and a renderer that
//! projects the state into plain draw instructions.  Everything that touches
//! the terminal or the file system lives outside, feeding plain values in
//! and carrying frames and file contents out.

use vstd::prelude::*;

pub mod buffer;
pub mod cursor;
pub mod editor;
pub mod grid;
pub mod normal;
pub mod out;
pub mod render;
pub mod text;
pub mod words;

verus! {

/// Width of one tab stop: a tab in a raw line expands to spaces up to the
/// next multiple of this width in the rendered line.
pub const TAB_SZ: usize = 8;

} // verus!
