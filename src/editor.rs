use vstd::prelude::*;
use vstd::string::StringExecFns;
use std::path::PathBuf;
use crate::text::{chars_of, split_lines, lines_of, join_lines_text, joined, string_of, copy_chars};

verus! {

/// `std::path::PathBuf`, carried through unread: it names the file a session
/// edits, for the caller that saves and reloads it.
#[verifier::external_type_specification]
#[verifier::external_body]
pub struct ExPathBuf(PathBuf);

/// Editor style (Vim or Nano).
#[derive(Debug, Clone, Copy, PartialEq, Eq)]
pub enum EditorStyle {
    Vim,
    Nano,
}

#[derive(Debug, Clone, Copy, PartialEq, Eq)]
pub enum VimMode {
    Normal,
    Insert,
    Command,
    Visual,
    VisualLine,
}

/// Pending operator for operator-pending mode (d, y, c, >, < followed by a motion).
#[derive(Debug, Clone, Copy, PartialEq, Eq)]
pub enum PendingOperator {
    Nothing,
    Delete,
    Yank,
    Change,
    Indent,
    Outdent,
}

/// What the command line is collecting.
#[derive(Debug, Clone, Copy, PartialEq, Eq)]
pub enum CommandKind {
    Ex,
    SearchForward,
    SearchBackward,
    ReplaceChar,
}

/// A saved state: the lines and the cursor.
#[derive(Debug)]
pub struct UndoEntry {
    pub lines: Vec<Vec<char>>,
    pub row: usize,
    pub col: usize,
}

/// Most entries the undo history keeps.
pub const UNDO_LIMIT: usize = 100;

#[derive(Debug)]
pub struct TextEditor {
    pub file_path: Option<PathBuf>,
    pub lines: Vec<Vec<char>>,
    pub cursor_row: usize,
    /// Character index, not byte index.
    pub cursor_col: usize,
    pub mode: VimMode,
    pub editor_style: EditorStyle,
    pub command_kind: CommandKind,
    pub command_buffer: Vec<char>,
    pub clipboard: Vec<Vec<char>>,
    /// True if the clipboard holds whole lines.
    pub clipboard_is_line: bool,
    pub status_message: String,
    pub modified: bool,
    pub pending_op: PendingOperator,
    /// A first `g` was typed and waits for its second.
    pub g_pending: bool,
    pub undo_stack: Vec<UndoEntry>,
    pub redo_stack: Vec<UndoEntry>,
    pub search_pattern: Vec<char>,
    /// True for forward search.
    pub search_direction: bool,
    pub last_search_row: usize,
    pub last_search_col: usize,
    pub visual_start_row: usize,
    pub visual_start_col: usize,
    /// Digits typed before a command.
    pub count_buffer: Vec<char>,
    /// True while the nano-style search prompt is open.
    pub nano_search_mode: bool,
}

/// The lines of a buffer as sequences of characters.
pub open spec fn view_lines(ls: Seq<Vec<char>>) -> Seq<Seq<char>> {
    Seq::new(ls.len(), |i: int| ls[i]@)
}

/// Largest column the cursor may take on a line of `len` characters.
pub open spec fn max_col(len: nat, insert: bool) -> nat {
    if insert {
        len
    } else if len == 0 {
        0
    } else {
        (len - 1) as nat
    }
}

pub open spec fn min_nat(a: nat, b: nat) -> nat {
    if a <= b {
        a
    } else {
        b
    }
}

/// A history with one more entry, the oldest dropped past the limit.
pub open spec fn push_bounded(
    h: Seq<(Seq<Seq<char>>, usize, usize)>,
    s: (Seq<Seq<char>>, usize, usize),
) -> Seq<(Seq<Seq<char>>, usize, usize)> {
    if h.len() >= UNDO_LIMIT {
        h.push(s).drop_first()
    } else {
        h.push(s)
    }
}

impl UndoEntry {
    pub open spec fn snap(&self) -> (Seq<Seq<char>>, usize, usize) {
        (view_lines(self.lines@), self.row, self.col)
    }
}

/// A copy of a buffer's lines.
pub fn copy_lines(ls: &Vec<Vec<char>>) -> (r: Vec<Vec<char>>)
    ensures
        r@.len() == ls@.len(),
        view_lines(r@) == view_lines(ls@),
{
    let mut out: Vec<Vec<char>> = Vec::new();
    let mut i: usize = 0;
    while i < ls.len()
        invariant
            i <= ls@.len(),
            out@.len() == i,
            forall|k: int| 0 <= k < i ==> #[trigger] out@[k]@ == ls@[k]@,
        decreases ls@.len() - i,
    {
        out.push(copy_chars(&ls[i], 0, ls[i].len()));
        assert(ls@[i as int]@.subrange(0, ls@[i as int]@.len() as int) =~= ls@[i as int]@);
        i = i + 1;
    }
    assert(view_lines(out@) =~= view_lines(ls@));
    out
}

impl TextEditor {
    /// The buffer as a sequence of lines.
    pub open spec fn text(&self) -> Seq<Seq<char>> {
        view_lines(self.lines@)
    }

    pub open spec fn current_line(&self) -> Seq<char> {
        self.text()[self.cursor_row as int]
    }

    pub open spec fn in_insert(&self) -> bool {
        self.mode is Insert
    }

    /// Largest column allowed on the cursor's line in the current mode.
    pub open spec fn col_limit(&self) -> nat {
        max_col(self.current_line().len(), self.in_insert())
    }

    /// The internal register as a sequence of lines.
    pub open spec fn register(&self) -> Seq<Seq<char>> {
        view_lines(self.clipboard@)
    }

    pub open spec fn snapshot(&self) -> (Seq<Seq<char>>, usize, usize) {
        (self.text(), self.cursor_row, self.cursor_col)
    }

    pub open spec fn undo_view(&self) -> Seq<(Seq<Seq<char>>, usize, usize)> {
        Seq::new(self.undo_stack@.len(), |i: int| self.undo_stack@[i].snap())
    }

    pub open spec fn redo_view(&self) -> Seq<(Seq<Seq<char>>, usize, usize)> {
        Seq::new(self.redo_stack@.len(), |i: int| self.redo_stack@[i].snap())
    }

    pub open spec fn in_visual(&self) -> bool {
        self.mode is Visual || self.mode is VisualLine
    }

    /// The session's invariant.
    pub open spec fn wf(&self) -> bool {
        &&& self.wf_but_col()
        &&& self.cursor_col <= self.col_limit()
    }

    /// The invariant but for the cursor's column.
    pub open spec fn wf_but_col(&self) -> bool {
        &&& self.lines@.len() >= 1
        &&& self.cursor_row < self.lines@.len()
        &&& self.undo_stack@.len() + self.redo_stack@.len() <= UNDO_LIMIT
        &&& forall|i: int|
            0 <= i < self.undo_stack@.len() ==> #[trigger] self.undo_stack@[i].lines@.len() >= 1
        &&& forall|i: int|
            0 <= i < self.redo_stack@.len() ==> #[trigger] self.redo_stack@[i].lines@.len() >= 1
    }

    /// The state after an undo of `prior`: the top entry of its undo history
    /// is restored (the cursor clamped into the buffer), and `prior` moves to
    /// the redo history.
    pub open spec fn undone_from(&self, prior: &Self) -> bool {
        let top = prior.undo_view().last();
        &&& self.text() == top.0
        &&& self.cursor_row == min_nat(top.1 as nat, (top.0.len() - 1) as nat)
        &&& self.cursor_col == min_nat(top.2 as nat, self.col_limit())
        &&& self.undo_view() == prior.undo_view().drop_last()
        &&& self.redo_view() == prior.redo_view().push(prior.snapshot())
        &&& self.mode == prior.mode
    }

    /// The state after an edit was recorded: the old state is on top of the
    /// undo history and the redo history is empty.
    pub open spec fn recorded(&self, before: &Self) -> bool {
        &&& self.undo_view() == push_bounded(before.undo_view(), before.snapshot())
        &&& self.redo_stack@.len() == 0
    }

    pub fn new(content: String, file_path: Option<PathBuf>) -> (r: Self)
        ensures
            r.wf(),
            r.text() == (if lines_of(content@).len() == 0 {
                seq![Seq::<char>::empty()]
            } else {
                lines_of(content@)
            }),
            r.cursor_row == 0,
            r.cursor_col == 0,
            r.mode == VimMode::Normal,
            r.editor_style == EditorStyle::Vim,
            r.pending_op == PendingOperator::Nothing,
            !r.modified,
            r.undo_stack@.len() == 0,
            r.redo_stack@.len() == 0,
            r.clipboard@.len() == 0,
            r.status_message@ == "-- NORMAL --"@,
    {
        let chars = chars_of(content.as_str());
        let mut lines = split_lines(&chars);
        if lines.len() == 0 {
            lines.push(Vec::new());
        }
        let r = TextEditor {
            file_path,
            lines,
            cursor_row: 0,
            cursor_col: 0,
            mode: VimMode::Normal,
            editor_style: EditorStyle::Vim,
            command_kind: CommandKind::Ex,
            command_buffer: Vec::new(),
            clipboard: Vec::new(),
            clipboard_is_line: false,
            status_message: String::from_str("-- NORMAL --"),
            modified: false,
            pending_op: PendingOperator::Nothing,
            g_pending: false,
            undo_stack: Vec::new(),
            redo_stack: Vec::new(),
            search_pattern: Vec::new(),
            search_direction: true,
            last_search_row: 0,
            last_search_col: 0,
            visual_start_row: 0,
            visual_start_col: 0,
            count_buffer: Vec::new(),
            nano_search_mode: false,
        };
        assert(r.text() =~= (if lines_of(content@).len() == 0 {
            seq![Seq::<char>::empty()]
        } else {
            lines_of(content@)
        }));
        r
    }

    /// Number of lines in the buffer.
    pub fn line_count(&self) -> (n: usize)
        ensures
            n == self.lines@.len(),
    {
        self.lines.len()
    }

    /// The buffer's text: its lines joined with line feeds.
    pub fn get_content(&self) -> (r: String)
        ensures
            r@ == joined(self.text()),
    {
        let v = join_lines_text(&self.lines);
        string_of(v.as_slice())
    }

    /// The line under the cursor.
    pub fn get_current_line(&self) -> (r: String)
        requires
            self.wf(),
        ensures
            r@ == self.current_line(),
    {
        string_of(self.lines[self.cursor_row].as_slice())
    }

    /// The line under the cursor, to change in place. Whatever the caller
    /// leaves in it becomes that line of the buffer; the caller keeps the
    /// cursor inside the bounds of the current mode.
    pub fn get_current_line_mut(&mut self) -> (r: &mut Vec<char>)
        requires
            old(self).wf(),
        ensures
            *r == old(self).lines@[old(self).cursor_row as int],
            final(self).lines@ == old(self).lines@.update(old(self).cursor_row as int, *final(r)),
            final(self).cursor_row == old(self).cursor_row,
            final(self).cursor_col == old(self).cursor_col,
            final(self).mode == old(self).mode,
    {
        let row = self.cursor_row;
        &mut self.lines[row]
    }

    /// The register as text: its lines joined with line feeds.
    pub fn get_clipboard_text(&self) -> (r: String)
        ensures
            r@ == joined(self.register()),
    {
        let v = join_lines_text(&self.clipboard);
        string_of(v.as_slice())
    }

    /// The status line for display.
    pub fn status_line(&self) -> (r: String)
        ensures
            r@ == self.status_message@,
    {
        self.status_message.clone()
    }

    pub fn is_modified(&self) -> (r: bool)
        ensures
            r == self.modified,
    {
        self.modified
    }

    /// Move the cursor's column into the bound of the current mode.
    pub fn clamp_cursor_col(&mut self)
        requires
            old(self).lines@.len() >= 1,
            old(self).cursor_row < old(self).lines@.len(),
        ensures
            final(self).cursor_col == min_nat(old(self).cursor_col as nat, old(self).col_limit()),
            *final(self) == (TextEditor { cursor_col: final(self).cursor_col, ..*old(self) }),
    {
        let line_len = self.lines[self.cursor_row].len();
        let max_col = if matches!(self.mode, VimMode::Insert) {
            line_len
        } else if line_len > 0 {
            line_len - 1
        } else {
            0
        };
        if self.cursor_col > max_col {
            self.cursor_col = max_col;
        }
    }

    /// Save the current state for undo.
    pub fn save_undo(&mut self)
        requires
            old(self).wf(),
        ensures
            final(self).wf(),
            final(self).recorded(old(self)),
            *final(self) == (TextEditor {
                undo_stack: final(self).undo_stack,
                redo_stack: final(self).redo_stack,
                ..*old(self)
            }),
    {
        let entry = UndoEntry {
            lines: copy_lines(&self.lines),
            row: self.cursor_row,
            col: self.cursor_col,
        };
        let ghost before = self.undo_view();
        let ghost snap = self.snapshot();
        self.redo_stack = Vec::new();
        self.undo_stack.push(entry);
        assert(self.undo_view() =~= before.push(snap));
        if self.undo_stack.len() > UNDO_LIMIT {
            self.undo_stack.remove(0);
            assert(self.undo_view() =~= before.push(snap).drop_first());
        }
        assert forall|i: int| 0 <= i < self.undo_stack@.len() implies #[trigger] self.undo_stack@[i].lines@.len() >= 1 by {
            if self.undo_stack@.len() > old(self).undo_stack@.len() {
                if i < old(self).undo_stack@.len() {
                    assert(self.undo_stack@[i] == old(self).undo_stack@[i]);
                }
            } else {
                assert(self.undo_stack@[i] == old(self).undo_stack@.push(self.undo_stack@.last())[i + 1]);
            }
        }
    }

    /// Undo the last change.
    pub fn undo(&mut self)
        requires
            old(self).wf(),
        ensures
            final(self).wf(),
            old(self).undo_stack@.len() == 0 ==> {
                &&& final(self).status_message@ == "Already at oldest change"@
                &&& *final(self) == (TextEditor {
                    status_message: final(self).status_message,
                    ..*old(self)
                })
            },
            old(self).undo_stack@.len() > 0 ==> {
                &&& final(self).undone_from(old(self))
                &&& final(self).status_message@ == "Undo"@
            },
    {
        if self.undo_stack.len() == 0 {
            self.status_message = String::from_str("Already at oldest change");
            return;
        }
        match self.undo_stack.pop() {
            Some(entry) => {
                let ghost top = entry.snap();
                let ghost before_redo = self.redo_view();
                let ghost snap = self.snapshot();
                let UndoEntry { lines, row, col } = entry;
                let mut lines = lines;
                core::mem::swap(&mut self.lines, &mut lines);
                self.redo_stack.push(UndoEntry { lines, row: self.cursor_row, col: self.cursor_col });
                assert(self.redo_view() =~= before_redo.push(snap));
                self.restore_cursor(row, col);
                self.status_message = String::from_str("Undo");
                assert(self.undo_view() =~= old(self).undo_view().drop_last());
            },
            None => {},
        }
    }

    /// Redo the last undone change.
    pub fn redo(&mut self)
        requires
            old(self).wf(),
        ensures
            final(self).wf(),
            old(self).redo_stack@.len() == 0 ==> {
                &&& final(self).status_message@ == "Already at newest change"@
                &&& *final(self) == (TextEditor {
                    status_message: final(self).status_message,
                    ..*old(self)
                })
            },
            old(self).redo_stack@.len() > 0 ==> {
                let top = old(self).redo_view().last();
                &&& final(self).text() == top.0
                &&& final(self).cursor_row == min_nat(top.1 as nat, (top.0.len() - 1) as nat)
                &&& final(self).cursor_col == min_nat(top.2 as nat, final(self).col_limit())
                &&& final(self).redo_view() == old(self).redo_view().drop_last()
                &&& final(self).undo_view() == old(self).undo_view().push(old(self).snapshot())
                &&& final(self).mode == old(self).mode
                &&& final(self).status_message@ == "Redo"@
            },
    {
        if self.redo_stack.len() == 0 {
            self.status_message = String::from_str("Already at newest change");
            return;
        }
        match self.redo_stack.pop() {
            Some(entry) => {
                let ghost before_undo = self.undo_view();
                let ghost snap = self.snapshot();
                let UndoEntry { lines, row, col } = entry;
                let mut lines = lines;
                core::mem::swap(&mut self.lines, &mut lines);
                self.undo_stack.push(UndoEntry { lines, row: self.cursor_row, col: self.cursor_col });
                assert(self.undo_view() =~= before_undo.push(snap));
                self.restore_cursor(row, col);
                self.status_message = String::from_str("Redo");
                assert(self.redo_view() =~= old(self).redo_view().drop_last());
            },
            None => {},
        }
    }

    /// Put the cursor at a saved place, clamped into the buffer.
    fn restore_cursor(&mut self, row: usize, col: usize)
        requires
            old(self).lines@.len() >= 1,
        ensures
            final(self).cursor_row == min_nat(row as nat, (old(self).lines@.len() - 1) as nat),
            final(self).cursor_col == min_nat(col as nat, final(self).col_limit()),
            *final(self) == (TextEditor {
                cursor_row: final(self).cursor_row,
                cursor_col: final(self).cursor_col,
                ..*old(self)
            }),
    {
        let last = self.lines.len() - 1;
        self.cursor_row = if row < last {
            row
        } else {
            last
        };
        self.cursor_col = col;
        self.clamp_cursor_col();
    }
}

} // verus!
