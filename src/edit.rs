use vstd::prelude::*;
use vstd::string::StringExecFns;
use crate::editor::{TextEditor, VimMode, min_nat, max_col};
use crate::buffer::{count_message, one_line, copy_range, suffix_from, prefix_to, cut_out};
use crate::text::{decimal, toggled, toggle_char};

verus! {

/// `n` is `o` after deleting the character under the cursor (x): it goes to
/// the register; past the end of the line nothing changes but the history.
pub open spec fn char_deleted(o: TextEditor, n: TextEditor) -> bool {
    let s = o.current_line();
    let c = o.cursor_col as int;
    &&& n.recorded(&o)
    &&& n.mode == o.mode
    &&& n.cursor_row == o.cursor_row
    &&& if c < s.len() {
        &&& n.text() == o.text().update(o.cursor_row as int, s.remove(c))
        &&& n.register() == seq![seq![s[c]]]
        &&& !n.clipboard_is_line
        &&& n.modified
        &&& n.cursor_col == min_nat(c as nat, n.col_limit())
    } else {
        &&& n.text() == o.text()
        &&& n.register() == o.register()
        &&& n.clipboard_is_line == o.clipboard_is_line
        &&& n.modified == o.modified
        &&& n.cursor_col == o.cursor_col
    }
}

impl TextEditor {
    /// Delete the character under the cursor (x).
    pub fn delete_char(&mut self)
        requires
            old(self).wf(),
        ensures
            final(self).wf(),
            char_deleted(*old(self), *final(self)),
    {
        self.save_undo();
        let row = self.cursor_row;
        let c = self.cursor_col;
        if c < self.lines[row].len() {
            let ch = self.lines[row][c];
            let line = cut_out(&self.lines[row], c, c + 1);
            assert(line@ =~= self.lines@[row as int]@.remove(c as int));
            self.put_line(row, line);
            let mut piece: Vec<char> = Vec::new();
            piece.push(ch);
            self.clipboard = one_line(piece);
            self.clipboard_is_line = false;
            self.modified = true;
            self.clamp_cursor_col();
        }
    }

    /// Delete the character before the cursor (X).
    pub fn delete_char_before(&mut self)
        requires
            old(self).wf(),
        ensures
            final(self).wf(),
            final(self).mode == old(self).mode,
            final(self).cursor_row == old(self).cursor_row,
            ({
                let s = old(self).current_line();
                let c = old(self).cursor_col as int;
                if c > 0 {
                    &&& final(self).recorded(old(self))
                    &&& final(self).text() == old(self).text().update(
                        old(self).cursor_row as int,
                        s.remove(c - 1),
                    )
                    &&& final(self).register() == seq![seq![s[c - 1]]]
                    &&& !final(self).clipboard_is_line
                    &&& final(self).modified
                    &&& final(self).cursor_col == c - 1
                } else {
                    *final(self) == *old(self)
                }
            }),
    {
        if self.cursor_col > 0 {
            self.save_undo();
            let row = self.cursor_row;
            let c = self.cursor_col - 1;
            let ch = self.lines[row][c];
            let line = cut_out(&self.lines[row], c, c + 1);
            assert(line@ =~= self.lines@[row as int]@.remove(c as int));
            self.put_line(row, line);
            self.cursor_col = c;
            let mut piece: Vec<char> = Vec::new();
            piece.push(ch);
            self.clipboard = one_line(piece);
            self.clipboard_is_line = false;
            self.modified = true;
        }
    }

    /// Delete the cursor's line (dd); the sole line is cleared instead.
    pub fn delete_line(&mut self)
        requires
            old(self).wf(),
        ensures
            final(self).wf(),
            final(self).recorded(old(self)),
            final(self).mode == old(self).mode,
            final(self).register() == seq![old(self).current_line()],
            final(self).clipboard_is_line,
            final(self).modified,
            old(self).lines@.len() > 1 ==> {
                &&& final(self).text() == old(self).text().remove(old(self).cursor_row as int)
                &&& final(self).cursor_row == min_nat(
                    old(self).cursor_row as nat,
                    (old(self).lines@.len() - 2) as nat,
                )
                &&& final(self).cursor_col == min_nat(
                    old(self).cursor_col as nat,
                    final(self).col_limit(),
                )
            },
            old(self).lines@.len() == 1 ==> {
                &&& final(self).text() == seq![Seq::<char>::empty()]
                &&& final(self).cursor_row == 0
                &&& final(self).cursor_col == 0
            },
    {
        self.save_undo();
        if self.lines.len() > 1 {
            let row = self.cursor_row;
            let deleted = self.remove_line(row);
            self.clipboard = one_line(deleted);
            self.clipboard_is_line = true;
            if self.cursor_row >= self.lines.len() {
                self.cursor_row = self.lines.len() - 1;
            }
            self.modified = true;
            self.clamp_cursor_col();
        } else {
            let deleted = self.remove_line(0);
            self.insert_line(0, Vec::new());
            assert(self.text() =~= seq![Seq::<char>::empty()]);
            self.clipboard = one_line(deleted);
            self.clipboard_is_line = true;
            self.cursor_col = 0;
            self.modified = true;
        }
    }

    /// Yank the cursor's line (Y).
    pub fn yank_line(&mut self)
        requires
            old(self).wf(),
        ensures
            final(self).wf(),
            final(self).register() == seq![old(self).current_line()],
            final(self).clipboard_is_line,
            final(self).status_message@ == "1 line yanked"@,
            *final(self) == (TextEditor {
                clipboard: final(self).clipboard,
                clipboard_is_line: true,
                status_message: final(self).status_message,
                ..*old(self)
            }),
    {
        let l = suffix_from(&self.lines[self.cursor_row], 0);
        assert(l@ =~= self.current_line());
        self.clipboard = one_line(l);
        self.clipboard_is_line = true;
        self.status_message = String::from_str("1 line yanked");
    }

    /// Yank `count` lines from the cursor's line on, as many as there are.
    pub fn yank_lines(&mut self, count: usize)
        requires
            old(self).wf(),
        ensures
            final(self).wf(),
            ({
                let end = min_nat((old(self).cursor_row + count) as nat, old(self).lines@.len());
                &&& final(self).register() == old(self).text().subrange(
                    old(self).cursor_row as int,
                    end as int,
                )
                &&& final(self).status_message@ == decimal((end - old(self).cursor_row) as nat)
                    + " lines yanked"@
            }),
            final(self).clipboard_is_line,
            *final(self) == (TextEditor {
                clipboard: final(self).clipboard,
                clipboard_is_line: true,
                status_message: final(self).status_message,
                ..*old(self)
            }),
    {
        let row = self.cursor_row;
        let end = if count <= self.lines.len() - row {
            row + count
        } else {
            self.lines.len()
        };
        self.clipboard = copy_range(&self.lines, row, end);
        self.clipboard_is_line = true;
        self.status_message = count_message(end - row, " lines yanked");
    }

    /// Yank from the cursor to the end of the line (y$).
    pub fn yank_to_end(&mut self)
        requires
            old(self).wf(),
        ensures
            final(self).wf(),
            final(self).register() == seq![
                old(self).current_line().subrange(
                    min_nat(old(self).cursor_col as nat, old(self).current_line().len()) as int,
                    old(self).current_line().len() as int,
                ),
            ],
            !final(self).clipboard_is_line,
            final(self).status_message@ == "Yanked to end of line"@,
            *final(self) == (TextEditor {
                clipboard: final(self).clipboard,
                clipboard_is_line: false,
                status_message: final(self).status_message,
                ..*old(self)
            }),
    {
        let row = self.cursor_row;
        let len = self.lines[row].len();
        let c = if self.cursor_col < len {
            self.cursor_col
        } else {
            len
        };
        let t = suffix_from(&self.lines[row], c);
        self.clipboard = one_line(t);
        self.clipboard_is_line = false;
        self.status_message = String::from_str("Yanked to end of line");
    }

    /// Delete from the cursor to the end of the line (D, d$).
    pub fn delete_to_end(&mut self)
        requires
            old(self).wf(),
        ensures
            final(self).wf(),
            final(self).recorded(old(self)),
            ({
                let s = old(self).current_line();
                let c = min_nat(old(self).cursor_col as nat, s.len()) as int;
                &&& final(self).text() == old(self).text().update(
                    old(self).cursor_row as int,
                    s.subrange(0, c),
                )
                &&& final(self).register() == seq![s.subrange(c, s.len() as int)]
            }),
            !final(self).clipboard_is_line,
            final(self).modified,
            final(self).mode == old(self).mode,
            final(self).cursor_row == old(self).cursor_row,
            final(self).cursor_col == min_nat(old(self).cursor_col as nat, final(self).col_limit()),
    {
        self.save_undo();
        let row = self.cursor_row;
        let len = self.lines[row].len();
        let c = if self.cursor_col < len {
            self.cursor_col
        } else {
            len
        };
        let t = suffix_from(&self.lines[row], c);
        let keep = prefix_to(&self.lines[row], c);
        self.put_line(row, keep);
        self.clipboard = one_line(t);
        self.clipboard_is_line = false;
        self.modified = true;
        self.clamp_cursor_col();
    }

    /// Delete `count` lines from the cursor's line on (dd with a count). The
    /// buffer keeps one empty line when all lines go.
    pub fn delete_lines(&mut self, count: usize)
        requires
            old(self).wf(),
        ensures
            final(self).wf(),
            final(self).recorded(old(self)),
            ({
                let row = old(self).cursor_row as int;
                let end = min_nat((row + count) as nat, old(self).lines@.len()) as int;
                let rest = old(self).text().subrange(0, row) + old(self).text().subrange(
                    end,
                    old(self).lines@.len() as int,
                );
                &&& final(self).register() == old(self).text().subrange(row, end)
                &&& final(self).text() == (if rest.len() == 0 {
                    seq![Seq::<char>::empty()]
                } else {
                    rest
                })
                &&& final(self).cursor_row == min_nat(row as nat, (final(self).lines@.len() - 1) as nat)
                &&& final(self).status_message@ == decimal((end - row) as nat) + " lines deleted"@
            }),
            final(self).clipboard_is_line,
            final(self).cursor_col == 0,
            final(self).modified,
            final(self).mode == old(self).mode,
    {
        self.save_undo();
        let row = self.cursor_row;
        let end = if count <= self.lines.len() - row {
            row + count
        } else {
            self.lines.len()
        };
        self.clipboard = copy_range(&self.lines, row, end);
        let ghost t0 = self.text();
        let ghost saved = *self;
        let mut k: usize = row;
        while k < end
            invariant
                row <= k <= end <= t0.len(),
                *self == (TextEditor { lines: self.lines, ..saved }),
                self.text() == t0.subrange(0, row as int) + t0.subrange(k as int, t0.len() as int),
                self.lines@.len() == t0.len() - (k - row),
            decreases end - k,
        {
            self.remove_line(row);
            assert(self.text() =~= t0.subrange(0, row as int) + t0.subrange(k + 1, t0.len() as int));
            k = k + 1;
        }
        if self.lines.len() == 0 {
            self.insert_line(0, Vec::new());
            assert(self.text() =~= seq![Seq::<char>::empty()]);
        }
        let last = self.lines.len() - 1;
        if self.cursor_row > last {
            self.cursor_row = last;
        }
        self.cursor_col = 0;
        self.clipboard_is_line = true;
        self.modified = true;
        self.status_message = count_message(end - row, " lines deleted");
    }

    /// Replace the character under the cursor (r).
    pub fn replace_char(&mut self, ch: char)
        requires
            old(self).wf(),
        ensures
            final(self).wf(),
            final(self).recorded(old(self)),
            ({
                let s = old(self).current_line();
                let c = old(self).cursor_col as int;
                if c < s.len() {
                    &&& final(self).text() == old(self).text().update(
                        old(self).cursor_row as int,
                        s.update(c, ch),
                    )
                    &&& final(self).modified
                } else {
                    &&& final(self).text() == old(self).text()
                    &&& final(self).modified == old(self).modified
                }
            }),
            final(self).cursor_row == old(self).cursor_row,
            final(self).cursor_col == old(self).cursor_col,
            final(self).mode == old(self).mode,
            final(self).register() == old(self).register(),
    {
        self.save_undo();
        let row = self.cursor_row;
        let c = self.cursor_col;
        if c < self.lines[row].len() {
            let mut line = suffix_from(&self.lines[row], 0);
            line.set(c, ch);
            assert(line@ =~= self.lines@[row as int]@.update(c as int, ch));
            self.put_line(row, line);
            self.modified = true;
        }
    }

    /// Substitute the character under the cursor (s): delete it and enter
    /// Insert mode at that spot.
    pub fn substitute_char(&mut self)
        requires
            old(self).wf(),
        ensures
            final(self).wf(),
            final(self).recorded(old(self)),
            final(self).mode == VimMode::Insert,
            final(self).cursor_row == old(self).cursor_row,
            final(self).cursor_col == old(self).cursor_col,
            ({
                let s = old(self).current_line();
                let c = old(self).cursor_col as int;
                if c < s.len() {
                    &&& final(self).text() == old(self).text().update(
                        old(self).cursor_row as int,
                        s.remove(c),
                    )
                    &&& final(self).register() == seq![seq![s[c]]]
                    &&& !final(self).clipboard_is_line
                    &&& final(self).modified
                } else {
                    &&& final(self).text() == old(self).text()
                    &&& final(self).register() == old(self).register()
                }
            }),
    {
        self.enter_insert_mode();
        self.delete_char();
    }

    /// Substitute the cursor's line (S, cc): clear it and enter Insert mode.
    pub fn substitute_line(&mut self)
        requires
            old(self).wf(),
        ensures
            final(self).wf(),
            final(self).recorded(old(self)),
            final(self).text() == old(self).text().update(
                old(self).cursor_row as int,
                Seq::<char>::empty(),
            ),
            final(self).register() == seq![old(self).current_line()],
            final(self).clipboard_is_line,
            final(self).modified,
            final(self).mode == VimMode::Insert,
            final(self).cursor_row == old(self).cursor_row,
            final(self).cursor_col == 0,
    {
        self.save_undo();
        let row = self.cursor_row;
        let l = suffix_from(&self.lines[row], 0);
        assert(l@ =~= self.current_line());
        self.clipboard = one_line(l);
        self.clipboard_is_line = true;
        self.put_line(row, Vec::new());
        self.cursor_col = 0;
        self.modified = true;
        self.enter_insert_mode();
    }

    /// Change to the end of the line (C, c$): delete the rest and enter Insert mode.
    pub fn change_to_end(&mut self)
        requires
            old(self).wf(),
        ensures
            final(self).wf(),
            final(self).recorded(old(self)),
            ({
                let s = old(self).current_line();
                let c = old(self).cursor_col as int;
                &&& final(self).text() == old(self).text().update(
                    old(self).cursor_row as int,
                    s.subrange(0, c),
                )
                &&& final(self).register() == seq![s.subrange(c, s.len() as int)]
            }),
            !final(self).clipboard_is_line,
            final(self).modified,
            final(self).mode == VimMode::Insert,
            final(self).cursor_row == old(self).cursor_row,
            final(self).cursor_col == old(self).cursor_col,
    {
        self.save_undo();
        self.enter_insert_mode();
        let row = self.cursor_row;
        let c = self.cursor_col;
        let t = suffix_from(&self.lines[row], c);
        let keep = prefix_to(&self.lines[row], c);
        self.put_line(row, keep);
        self.clipboard = one_line(t);
        self.clipboard_is_line = false;
        self.modified = true;
    }

    /// Toggle the case of the character under the cursor and step right (~).
    pub fn toggle_case(&mut self)
        requires
            old(self).wf(),
        ensures
            final(self).wf(),
            final(self).recorded(old(self)),
            ({
                let s = old(self).current_line();
                let c = old(self).cursor_col as int;
                if c < s.len() {
                    &&& final(self).text() == old(self).text().update(
                        old(self).cursor_row as int,
                        s.update(c, toggled(s[c])),
                    )
                    &&& final(self).cursor_col == min_nat((c + 1) as nat, max_col(s.len(), false))
                    &&& final(self).modified
                } else {
                    &&& final(self).text() == old(self).text()
                    &&& final(self).cursor_col == old(self).cursor_col
                    &&& final(self).modified == old(self).modified
                }
            }),
            final(self).cursor_row == old(self).cursor_row,
            final(self).mode == old(self).mode,
    {
        self.save_undo();
        let row = self.cursor_row;
        let c = self.cursor_col;
        let len = self.lines[row].len();
        if c < len {
            let mut line = suffix_from(&self.lines[row], 0);
            let t = toggle_char(line[c]);
            line.set(c, t);
            assert(line@ =~= self.lines@[row as int]@.update(c as int, t));
            self.put_line(row, line);
            self.cursor_col = if c + 1 < len {
                c + 1
            } else {
                len - 1
            };
            self.modified = true;
        }
    }
}

} // verus!
