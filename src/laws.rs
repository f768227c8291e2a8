use vstd::prelude::*;
use crate::editor::{TextEditor, max_col, push_bounded};

verus! {

/// The buffer always holds at least one line. Every public operation, and
/// `handle_key` for any action, keeps `wf`, so this holds after any sequence
/// of actions from `TextEditor::new`.
pub proof fn law_line_count_positive(e: &TextEditor)
    requires
        e.wf(),
    ensures
        e.lines@.len() >= 1,
{
}

/// The cursor stays in bounds: in Insert mode it may stand just past the last
/// character; in every other mode it stays on a character (column 0 on an
/// empty line).
pub proof fn law_cursor_in_bounds(e: &TextEditor)
    requires
        e.wf(),
    ensures
        e.cursor_row < e.lines@.len(),
        e.in_insert() ==> e.cursor_col <= e.current_line().len(),
        !e.in_insert() ==> e.cursor_col <= max_col(e.current_line().len(), false),
        !e.in_insert() && e.current_line().len() > 0 ==> e.cursor_col < e.current_line().len(),
{
}

/// Undo right after an edit gives back the buffer and the cursor from before
/// the edit. The edit is any primitive that records the prior state (as its
/// `recorded` clause says), whatever mode it leaves, unless it leaves Insert
/// mode for another (a narrower cursor bound would then clamp the column).
pub proof fn law_undo_restores(before: &TextEditor, edited: &TextEditor, undone: &TextEditor)
    requires
        before.wf(),
        edited.recorded(before),
        before.in_insert() ==> edited.in_insert(),
        undone.undone_from(edited),
    ensures
        undone.text() == before.text(),
        undone.cursor_row == before.cursor_row,
        undone.cursor_col == before.cursor_col,
{
    let h = before.undo_view();
    let s = before.snapshot();
    assert(push_bounded(h, s).last() == s);
    assert(edited.undo_view().last() == s);
}

} // verus!
