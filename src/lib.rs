//! A modal text-editing engine in the style of Vim, with a simpler nano-like
//! style beside it: a buffer of lines indexed by characters, motions, an
//! operator-pending grammar with counts, visual selections, a single
//! register, bounded undo and redo, incremental search, and a command line
//! with literal substitution. Every function is verified; the engine does no
//! I/O and asks its caller to save, quit or reload through `Request`.
//!
//! `viewer` holds the byte-level helpers of the file viewer around it: a hex
//! dump, a check for binary content, and an ASCII-art ramp; `version`
//! compares dotted version numbers.

use vstd::prelude::*;

pub mod text;
pub mod editor;
pub mod modes;
pub mod motion;
pub mod buffer;
pub mod edit;
pub mod edit_more;
pub mod search;
pub mod visual;
pub mod command;
pub mod keys;
pub mod normal;
pub mod bracket;
pub mod nano;
pub mod laws;
pub mod viewer;
pub mod version;

pub use command::Request;
pub use editor::{CommandKind, EditorStyle, PendingOperator, TextEditor, VimMode};
pub use keys::Key;
pub use text::char_count_pub;
pub use visual::CaseChange;

verus! {

} // verus!
