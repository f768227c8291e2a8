use vstd::prelude::*;
use crate::editor::{TextEditor, VimMode, min_nat, view_lines};
use crate::buffer::{copy_range, suffix_from, prefix_to, cut_out, splice_in, one_line};
use crate::motion::{word_start, first_nonblank_at, next_word_start, first_nonblank};
use crate::text::{whitespace_of, is_space, copy_chars, concat_chars, lines_of, chars_of, split_lines};

verus! {

/// A line without its leading whitespace, as `str::trim_start` gives it.
pub open spec fn trim_start(s: Seq<char>) -> Seq<char>
    decreases s.len(),
{
    if s.len() > 0 && whitespace_of(s[0]) {
        trim_start(s.drop_first())
    } else {
        s
    }
}

proof fn lemma_trim_start(s: Seq<char>, k: int)
    requires
        0 <= k <= s.len(),
        forall|j: int| 0 <= j < k ==> whitespace_of(#[trigger] s[j]),
        k == s.len() || !whitespace_of(s[k]),
    ensures
        trim_start(s) == s.subrange(k, s.len() as int),
    decreases k,
{
    if k == 0 {
        assert(s.subrange(0, s.len() as int) =~= s);
    } else {
        assert(whitespace_of(s[0]));
        let t = s.drop_first();
        assert forall|j: int| 0 <= j < k - 1 implies whitespace_of(#[trigger] t[j]) by {
            assert(t[j] == s[j + 1]);
        }
        lemma_trim_start(t, k - 1);
        assert(t.subrange(k - 1, t.len() as int) =~= s.subrange(k, s.len() as int));
    }
}

/// The line without its leading whitespace.
pub fn trimmed_start(s: &Vec<char>) -> (r: Vec<char>)
    ensures
        r@ == trim_start(s@),
{
    let mut k: usize = 0;
    while k < s.len() && is_space(s[k])
        invariant
            k <= s@.len(),
            forall|j: int| 0 <= j < k ==> whitespace_of(#[trigger] s@[j]),
        decreases s@.len() - k,
    {
        k = k + 1;
    }
    proof {
        lemma_trim_start(s@, k as int);
    }
    suffix_from(s, k)
}

/// `r` leading spaces (at most four) begin the line.
pub open spec fn leading_spaces(s: Seq<char>, r: int) -> bool {
    &&& 0 <= r <= 4
    &&& r <= s.len()
    &&& forall|j: int| 0 <= j < r ==> s[j] == ' '
    &&& (r == 4 || r == s.len() || s[r] != ' ')
}

/// The line joined to the next one: the next line's leading whitespace goes,
/// and one space separates the two unless either is empty.
pub open spec fn joined_pair(a: Seq<char>, b: Seq<char>) -> Seq<char> {
    let t = trim_start(b);
    if a.len() > 0 && t.len() > 0 {
        a + seq![' '] + t
    } else {
        a + t
    }
}

/// `n` is `o` after deleting forward over the span a word motion (w) covers
/// on the cursor's line.
pub open spec fn word_deleted(o: TextEditor, n: TextEditor) -> bool {
    &&& n.recorded(&o)
    &&& n.mode == o.mode
    &&& {
        let s = o.current_line();
        let c = o.cursor_col as int;
        let row = o.cursor_row as int;
        let last_row = row + 1 == o.lines@.len();
        if exists|k: int| c < k && word_start(s, k) {
            exists|j: int|
                {
                    &&& c < j
                    &&& word_start(s, j)
                    &&& (forall|k: int| c < k < j ==> !word_start(s, k))
                    &&& n.text() == o.text().update(
                        row,
                        s.subrange(0, c) + s.subrange(j, s.len() as int),
                    )
                    &&& n.register() == seq![s.subrange(c, j)]
                }
                && !n.clipboard_is_line && n.modified
                && n.cursor_row == row && n.cursor_col == c
        } else if !last_row {
            &&& n.text() == o.text()
            &&& n.cursor_row == row + 1
            &&& first_nonblank_at(n.current_line(), n.cursor_col as int)
        } else if c + 1 < s.len() {
            &&& n.text() == o.text().update(
                row,
                s.subrange(0, c) + s.subrange(s.len() - 1, s.len() as int),
            )
            &&& n.register() == seq![s.subrange(c, s.len() - 1)]
            &&& !n.clipboard_is_line
            &&& n.modified
            &&& n.cursor_row == row
            &&& n.cursor_col == c
        } else {
            &&& n.text() == o.text()
            &&& n.cursor_row == row
            &&& n.cursor_col == c
        }
    }
}

impl TextEditor {
    /// Put lines copied from the register in before line `at`.
    fn insert_register_lines(&mut self, at: usize)
        requires
            at <= old(self).lines@.len(),
        ensures
            final(self).text() == old(self).text().subrange(0, at as int) + old(self).register()
                + old(self).text().subrange(at as int, old(self).lines@.len() as int),
            final(self).lines@.len() == old(self).lines@.len() + old(self).clipboard@.len(),
            *final(self) == (TextEditor { lines: final(self).lines, ..*old(self) }),
    {
        let ghost t0 = self.text();
        let ghost reg = self.register();
        let n = self.clipboard.len();
        let mut i: usize = 0;
        while i < n
            invariant
                n == self.clipboard@.len(),
                reg == self.register(),
                at <= t0.len(),
                i <= n,
                self.lines@.len() == t0.len() + i,
                self.text() == t0.subrange(0, at as int) + reg.take(i as int) + t0.subrange(
                    at as int,
                    t0.len() as int,
                ),
                *self == (TextEditor { lines: self.lines, ..*old(self) }),
            decreases n - i,
        {
            let l = copy_chars(&self.clipboard[i], 0, self.clipboard[i].len());
            assert(l@ =~= reg[i as int]);
            let cur = self.lines.len();
            assert(at + i <= cur);
            self.insert_line(at + i, l);
            assert(reg.take(i + 1) =~= reg.take(i as int).push(reg[i as int]));
            assert(self.text() =~= t0.subrange(0, at as int) + reg.take(i + 1) + t0.subrange(
                at as int,
                t0.len() as int,
            ));
            i = i + 1;
        }
        assert(reg.take(n as int) =~= reg);
    }

    /// Paste after the cursor (p): whole lines go below the cursor's line; other
    /// text goes in after the cursor's character.
    pub fn paste_after(&mut self)
        requires
            old(self).wf(),
        ensures
            final(self).wf(),
            old(self).clipboard@.len() == 0 ==> *final(self) == *old(self),
            old(self).clipboard@.len() > 0 ==> {
                let row = old(self).cursor_row as int;
                let s = old(self).current_line();
                &&& final(self).recorded(old(self))
                &&& final(self).modified
                &&& final(self).mode == old(self).mode
                &&& if old(self).clipboard_is_line {
                    &&& final(self).text() == old(self).text().subrange(0, row + 1)
                        + old(self).register() + old(self).text().subrange(
                        row + 1,
                        old(self).lines@.len() as int,
                    )
                    &&& final(self).cursor_row == row + 1
                    &&& final(self).cursor_col == 0
                } else if old(self).clipboard@.len() >= 2 {
                    let reg = old(self).register();
                    let at = min_nat((old(self).cursor_col + 1) as nat, s.len()) as int;
                    &&& final(self).text() == pasted_lines(old(self).text(), row, at, reg)
                    &&& final(self).cursor_row == row + reg.len() - 1
                    &&& final(self).cursor_col == min_nat(reg.last().len(), final(self).col_limit())
                } else {
                    let t = old(self).register()[0];
                    let at = min_nat((old(self).cursor_col + 1) as nat, s.len()) as int;
                    &&& final(self).text() == old(self).text().update(
                        row,
                        s.subrange(0, at) + t + s.subrange(at, s.len() as int),
                    )
                    &&& final(self).cursor_row == row
                    &&& final(self).cursor_col == min_nat(
                        (old(self).cursor_col + t.len()) as nat,
                        final(self).col_limit(),
                    )
                }
            },
    {
        if self.clipboard.len() == 0 {
            return;
        }
        self.save_undo();
        let row = self.cursor_row;
        if self.clipboard_is_line {
            let n = self.lines.len();
            assert(row < n);
            self.insert_register_lines(row + 1);
            self.cursor_row = row + 1;
            self.cursor_col = 0;
        } else if self.clipboard.len() >= 2 {
            let reg = copy_range(&self.clipboard, 0, self.clipboard.len());
            assert(self.register().subrange(0, self.clipboard@.len() as int) =~= self.register());
            let len = self.lines[row].len();
            let at = if len > 0 && self.cursor_col < len - 1 {
                self.cursor_col + 1
            } else {
                len
            };
            self.splice_lines(at, &reg);
        } else {
            let t = copy_chars(&self.clipboard[0], 0, self.clipboard[0].len());
            assert(self.clipboard@[0]@.subrange(0, self.clipboard@[0]@.len() as int) =~= self.register()[0]);
            let len = self.lines[row].len();
            let at = if len > 0 && self.cursor_col < len - 1 {
                self.cursor_col + 1
            } else {
                len
            };
            let line = splice_in(&self.lines[row], at, t.as_slice());
            let nl = line.len();
            self.put_line(row, line);
            let c = self.cursor_col;
            assert(c <= nl);
            if t.len() <= nl - c {
                self.cursor_col = c + t.len();
            } else {
                self.cursor_col = self.lines[row].len();
            }
            self.clamp_cursor_col();
        }
        self.modified = true;
    }

    /// Paste before the cursor (P): whole lines go above the cursor's line;
    /// other text goes in at the cursor.
    pub fn paste_before(&mut self)
        requires
            old(self).wf(),
        ensures
            final(self).wf(),
            old(self).clipboard@.len() == 0 ==> *final(self) == *old(self),
            old(self).clipboard@.len() > 0 ==> {
                let row = old(self).cursor_row as int;
                let s = old(self).current_line();
                &&& final(self).recorded(old(self))
                &&& final(self).modified
                &&& final(self).mode == old(self).mode
                &&& if old(self).clipboard_is_line {
                    &&& final(self).text() == old(self).text().subrange(0, row)
                        + old(self).register() + old(self).text().subrange(
                        row,
                        old(self).lines@.len() as int,
                    )
                    &&& final(self).cursor_row == row
                    &&& final(self).cursor_col == 0
                } else if old(self).clipboard@.len() >= 2 {
                    let reg = old(self).register();
                    let at = old(self).cursor_col as int;
                    &&& final(self).text() == pasted_lines(old(self).text(), row, at, reg)
                    &&& final(self).cursor_row == row + reg.len() - 1
                    &&& final(self).cursor_col == min_nat(reg.last().len(), final(self).col_limit())
                } else {
                    let t = old(self).register()[0];
                    let at = old(self).cursor_col as int;
                    &&& final(self).text() == old(self).text().update(
                        row,
                        s.subrange(0, at) + t + s.subrange(at, s.len() as int),
                    )
                    &&& final(self).cursor_row == row
                    &&& final(self).cursor_col == min_nat(
                        (at + t.len()) as nat,
                        final(self).col_limit(),
                    )
                }
            },
    {
        if self.clipboard.len() == 0 {
            return;
        }
        self.save_undo();
        let row = self.cursor_row;
        if self.clipboard_is_line {
            self.insert_register_lines(row);
            self.cursor_col = 0;
        } else if self.clipboard.len() >= 2 {
            let reg = copy_range(&self.clipboard, 0, self.clipboard.len());
            assert(self.register().subrange(0, self.clipboard@.len() as int) =~= self.register());
            let at = self.cursor_col;
            self.splice_lines(at, &reg);
        } else {
            let t = copy_chars(&self.clipboard[0], 0, self.clipboard[0].len());
            assert(self.clipboard@[0]@.subrange(0, self.clipboard@[0]@.len() as int) =~= self.register()[0]);
            let at = self.cursor_col;
            let line = splice_in(&self.lines[row], at, t.as_slice());
            let nl = line.len();
            assert(at + t.len() <= nl);
            self.put_line(row, line);
            self.cursor_col = at + t.len();
            self.clamp_cursor_col();
        }
        self.modified = true;
    }

    /// Join the next line onto the cursor's line (J).
    pub fn join_lines(&mut self)
        requires
            old(self).wf(),
        ensures
            final(self).wf(),
            old(self).cursor_row + 1 >= old(self).lines@.len() ==> *final(self) == *old(self),
            old(self).cursor_row + 1 < old(self).lines@.len() ==> {
                let row = old(self).cursor_row as int;
                let s = old(self).current_line();
                &&& final(self).recorded(old(self))
                &&& final(self).text() == old(self).text().update(
                    row,
                    joined_pair(s, old(self).text()[row + 1]),
                ).remove(row + 1)
                &&& final(self).cursor_row == row
                &&& final(self).cursor_col == min_nat(s.len(), final(self).col_limit())
                &&& final(self).modified
                &&& final(self).mode == old(self).mode
            },
    {
        if self.cursor_row < self.lines.len() - 1 {
            self.save_undo();
            self.join_next();
        }
    }

    /// Join the next line onto the cursor's line without recording history.
    pub(crate) fn join_next(&mut self)
        requires
            old(self).wf(),
        ensures
            final(self).wf(),
            old(self).cursor_row + 1 >= old(self).lines@.len() ==> *final(self) == *old(self),
            old(self).cursor_row + 1 < old(self).lines@.len() ==> {
                let row = old(self).cursor_row as int;
                let s = old(self).current_line();
                &&& final(self).text() == old(self).text().update(
                    row,
                    joined_pair(s, old(self).text()[row + 1]),
                ).remove(row + 1)
                &&& final(self).cursor_row == row
                &&& final(self).cursor_col == min_nat(s.len(), final(self).col_limit())
                &&& final(self).modified
                &&& final(self).mode == old(self).mode
                &&& final(self).undo_stack == old(self).undo_stack
                &&& final(self).redo_stack == old(self).redo_stack
            },
    {
        let row = self.cursor_row;
        if row < self.lines.len() - 1 {
            let next = self.remove_line(row + 1);
            let t = trimmed_start(&next);
            let cur_len = self.lines[row].len();
            let ghost cur = old(self).current_line();
            let ghost nxt = old(self).text()[row + 1];
            assert(old(self).text().remove(row + 1)[row as int] == cur);
            assert(self.text()[row as int] == cur);
            assert(self.lines@[row as int]@ == cur);
            let line = if cur_len > 0 && t.len() > 0 {
                let mut sp: Vec<char> = Vec::new();
                sp.push(' ');
                assert(sp@ =~= seq![' ']);
                let a = concat_chars(&self.lines[row], &sp);
                concat_chars(&a, &t)
            } else {
                concat_chars(&self.lines[row], &t)
            };
            assert(line@ == joined_pair(cur, nxt));
            self.put_line(row, line);
            assert(self.text() =~= old(self).text().update(
                row as int,
                joined_pair(old(self).current_line(), old(self).text()[row + 1]),
            ).remove(row + 1));
            self.cursor_col = cur_len;
            self.modified = true;
            self.clamp_cursor_col();
        }
    }

    /// Indent the cursor's line by four spaces (>>).
    pub fn indent_line(&mut self)
        requires
            old(self).wf(),
        ensures
            final(self).wf(),
            final(self).recorded(old(self)),
            final(self).text() == old(self).text().update(
                old(self).cursor_row as int,
                seq![' ', ' ', ' ', ' '] + old(self).current_line(),
            ),
            final(self).cursor_row == old(self).cursor_row,
            final(self).cursor_col == min_nat(
                (old(self).cursor_col + 4) as nat,
                final(self).col_limit(),
            ),
            final(self).modified,
            final(self).mode == old(self).mode,
    {
        self.save_undo();
        let row = self.cursor_row;
        let mut pad: Vec<char> = Vec::new();
        pad.push(' ');
        pad.push(' ');
        pad.push(' ');
        pad.push(' ');
        let line = concat_chars(&pad, &self.lines[row]);
        assert(pad@ =~= seq![' ', ' ', ' ', ' ']);
        let nl = line.len();
        assert(self.cursor_col + 4 <= nl);
        self.put_line(row, line);
        self.cursor_col = self.cursor_col + 4;
        self.modified = true;
        self.clamp_cursor_col();
    }

    /// Outdent the cursor's line by up to four leading spaces (<<).
    pub fn outdent_line(&mut self)
        requires
            old(self).wf(),
        ensures
            final(self).wf(),
            final(self).recorded(old(self)),
            exists|r: int|
                {
                    &&& leading_spaces(old(self).current_line(), r)
                    &&& final(self).text() == old(self).text().update(
                        old(self).cursor_row as int,
                        old(self).current_line().subrange(r, old(self).current_line().len() as int),
                    )
                    &&& final(self).cursor_col == (if old(self).cursor_col >= r {
                        old(self).cursor_col - r
                    } else {
                        0
                    })
                    &&& final(self).modified == (old(self).modified || r > 0)
                },
            final(self).cursor_row == old(self).cursor_row,
            final(self).mode == old(self).mode,
    {
        self.save_undo();
        let row = self.cursor_row;
        let mut r: usize = 0;
        while r < 4 && r < self.lines[row].len() && self.lines[row][r] == ' '
            invariant
                row < self.lines@.len(),
                r <= 4,
                r <= self.lines@[row as int]@.len(),
                forall|j: int| 0 <= j < r ==> self.lines@[row as int]@[j] == ' ',
            decreases 4 - r,
        {
            r = r + 1;
        }
        assert(leading_spaces(self.current_line(), r as int));
        if r > 0 {
            let line = suffix_from(&self.lines[row], r);
            self.put_line(row, line);
            self.cursor_col = if self.cursor_col >= r {
                self.cursor_col - r
            } else {
                0
            };
            self.modified = true;
        } else {
            let ghost cl = old(self).current_line();
            assert(cl.subrange(0, cl.len() as int) =~= cl);
            assert(old(self).text().update(row as int, cl) =~= old(self).text());
            assert(self.text() == old(self).text());
        }
    }

    /// Delete forward over the span a word motion (w) covers on the cursor's line.
    pub fn delete_word(&mut self)
        requires
            old(self).wf(),
        ensures
            final(self).wf(),
            word_deleted(*old(self), *final(self)),
    {
        self.save_undo();
        let row = self.cursor_row;
        let c = self.cursor_col;
        let len = self.lines[row].len();
        let end = match next_word_start(&self.lines[row], c) {
            Some(j) => j,
            None => {
                if row < self.lines.len() - 1 {
                    self.cursor_row = row + 1;
                    self.cursor_col = first_nonblank(&self.lines[row + 1]);
                    return;
                }
                if len > 0 && c < len - 1 {
                    len - 1
                } else {
                    return;
                }
            },
        };
        let cut = copy_chars(&self.lines[row], c, end);
        let line = cut_out(&self.lines[row], c, end);
        self.put_line(row, line);
        self.clipboard = one_line(cut);
        self.clipboard_is_line = false;
        self.cursor_col = c;
        self.modified = true;
    }

    /// Insert a character at the cursor and step past it.
    pub fn insert_char(&mut self, ch: char)
        requires
            old(self).wf(),
        ensures
            final(self).wf(),
            final(self).recorded(old(self)),
            final(self).text() == old(self).text().update(
                old(self).cursor_row as int,
                old(self).current_line().insert(old(self).cursor_col as int, ch),
            ),
            final(self).cursor_row == old(self).cursor_row,
            final(self).cursor_col == min_nat(
                (old(self).cursor_col + 1) as nat,
                final(self).col_limit(),
            ),
            final(self).modified,
            final(self).mode == old(self).mode,
    {
        self.save_undo();
        let row = self.cursor_row;
        let c = self.cursor_col;
        let mut one: Vec<char> = Vec::new();
        one.push(ch);
        let line = splice_in(&self.lines[row], c, one.as_slice());
        assert(line@ =~= self.lines@[row as int]@.insert(c as int, ch));
        let nl = line.len();
        assert(c + 1 <= nl);
        self.put_line(row, line);
        self.cursor_col = c + 1;
        self.modified = true;
        self.clamp_cursor_col();
    }

    /// Split the line at the cursor; the cursor goes to the start of the new line.
    pub fn insert_newline(&mut self)
        requires
            old(self).wf(),
        ensures
            final(self).wf(),
            final(self).recorded(old(self)),
            ({
                let s = old(self).current_line();
                let c = old(self).cursor_col as int;
                let row = old(self).cursor_row as int;
                final(self).text() == old(self).text().update(row, s.subrange(0, c)).insert(
                    row + 1,
                    s.subrange(c, s.len() as int),
                )
            }),
            final(self).cursor_row == old(self).cursor_row + 1,
            final(self).cursor_col == 0,
            final(self).modified,
            final(self).mode == old(self).mode,
    {
        self.save_undo();
        let row = self.cursor_row;
        let c = self.cursor_col;
        let rest = suffix_from(&self.lines[row], c);
        let keep = prefix_to(&self.lines[row], c);
        self.put_line(row, keep);
        let n = self.lines.len();
        assert(row < n);
        self.insert_line(row + 1, rest);
        self.cursor_row = row + 1;
        self.cursor_col = 0;
        self.modified = true;
    }

    /// Delete the character before the cursor, or join with the previous line
    /// at column 0.
    pub fn backspace(&mut self)
        requires
            old(self).wf(),
        ensures
            final(self).wf(),
            final(self).mode == old(self).mode,
            ({
                let s = old(self).current_line();
                let c = old(self).cursor_col as int;
                let row = old(self).cursor_row as int;
                if c > 0 {
                    &&& final(self).recorded(old(self))
                    &&& final(self).text() == old(self).text().update(row, s.remove(c - 1))
                    &&& final(self).cursor_row == row
                    &&& final(self).cursor_col == c - 1
                    &&& final(self).modified
                } else if row > 0 {
                    let prev = old(self).text()[row - 1];
                    &&& final(self).recorded(old(self))
                    &&& final(self).text() == old(self).text().update(row - 1, prev + s).remove(row)
                    &&& final(self).cursor_row == row - 1
                    &&& final(self).cursor_col == min_nat(prev.len(), final(self).col_limit())
                    &&& final(self).modified
                } else {
                    *final(self) == *old(self)
                }
            }),
    {
        let row = self.cursor_row;
        let c = self.cursor_col;
        if c > 0 {
            self.save_undo();
            let line = cut_out(&self.lines[row], c - 1, c);
            assert(line@ =~= self.lines@[row as int]@.remove(c - 1));
            self.put_line(row, line);
            self.cursor_col = c - 1;
            self.modified = true;
        } else if row > 0 {
            self.save_undo();
            let prev_len = self.lines[row - 1].len();
            let joined_line = concat_chars(&self.lines[row - 1], &self.lines[row]);
            self.put_line(row - 1, joined_line);
            self.remove_line(row);
            self.cursor_row = row - 1;
            self.cursor_col = prev_len;
            self.modified = true;
            self.clamp_cursor_col();
        }
    }

    /// Open a new empty line below the cursor's line and enter Insert mode (o).
    pub fn open_line_below(&mut self)
        requires
            old(self).wf(),
        ensures
            final(self).wf(),
            final(self).recorded(old(self)),
            final(self).text() == old(self).text().insert(
                old(self).cursor_row + 1,
                Seq::<char>::empty(),
            ),
            final(self).cursor_row == old(self).cursor_row + 1,
            final(self).cursor_col == 0,
            final(self).mode == VimMode::Insert,
            final(self).modified,
    {
        self.save_undo();
        self.enter_insert_mode();
        let row = self.cursor_row;
        let n = self.lines.len();
        assert(row < n);
        self.insert_line(row + 1, Vec::new());
        self.cursor_row = row + 1;
        self.cursor_col = 0;
        self.modified = true;
    }

    /// Open a new empty line above the cursor's line and enter Insert mode (O).
    pub fn open_line_above(&mut self)
        requires
            old(self).wf(),
        ensures
            final(self).wf(),
            final(self).recorded(old(self)),
            final(self).text() == old(self).text().insert(
                old(self).cursor_row as int,
                Seq::<char>::empty(),
            ),
            final(self).cursor_row == old(self).cursor_row,
            final(self).cursor_col == 0,
            final(self).mode == VimMode::Insert,
            final(self).modified,
    {
        self.save_undo();
        self.enter_insert_mode();
        let row = self.cursor_row;
        self.insert_line(row, Vec::new());
        self.cursor_col = 0;
        self.modified = true;
    }
}

} // verus!

verus! {

/// The buffer after pasting lines `p` (at least two) at `(row, col)`: the
/// line is split there, the first pasted line ends its head and the last
/// begins its tail.
pub open spec fn pasted_lines(t: Seq<Seq<char>>, row: int, col: int, p: Seq<Seq<char>>) -> Seq<Seq<char>> {
    let s = t[row];
    let n = p.len() as int;
    t.subrange(0, row) + seq![s.subrange(0, col) + p[0]] + p.subrange(1, n - 1) + seq![
        p[n - 1] + s.subrange(col, s.len() as int),
    ] + t.subrange(row + 1, t.len() as int)
}

impl TextEditor {
    /// Paste text from the system clipboard at the cursor, line by line as
    /// `str::lines` splits it; Normal mode switches to Insert mode.
    pub fn paste_text(&mut self, text: &str)
        requires
            old(self).wf(),
        ensures
            final(self).wf(),
            text@.len() == 0 ==> *final(self) == *old(self),
            text@.len() > 0 ==> {
                let p = lines_of(text@);
                let t = old(self).text();
                let row = old(self).cursor_row as int;
                let col = old(self).cursor_col as int;
                let s = t[row];
                &&& final(self).recorded(old(self))
                &&& final(self).mode == (if old(self).mode == VimMode::Normal {
                    VimMode::Insert
                } else {
                    old(self).mode
                })
                &&& p.len() == 1 ==> {
                    &&& final(self).text() == t.update(
                        row,
                        s.subrange(0, col) + p[0] + s.subrange(col, s.len() as int),
                    )
                    &&& final(self).cursor_row == row
                    &&& final(self).cursor_col == min_nat(
                        (col + p[0].len()) as nat,
                        final(self).col_limit(),
                    )
                    &&& final(self).modified
                }
                &&& p.len() >= 2 ==> {
                    &&& final(self).text() == pasted_lines(t, row, col, p)
                    &&& final(self).cursor_row == row + p.len() - 1
                    &&& final(self).cursor_col == min_nat(
                        p[p.len() - 1].len(),
                        final(self).col_limit(),
                    )
                    &&& final(self).modified
                }
            },
    {
        let chars = chars_of(text);
        if chars.len() == 0 {
            return;
        }
        let pieces = split_lines(&chars);
        let ghost p = lines_of(text@);
        self.save_undo();
        if matches!(self.mode, VimMode::Normal) {
            self.enter_insert_mode();
        }
        let row = self.cursor_row;
        let col = self.cursor_col;
        let n = pieces.len();
        let ghost t = self.text();
        if n == 1 {
            let line = splice_in(&self.lines[row], col, pieces[0].as_slice());
            let nl = line.len();
            assert(col + pieces[0]@.len() <= nl);
            self.put_line(row, line);
            self.cursor_col = col + pieces[0].len();
            self.modified = true;
            self.clamp_cursor_col();
        } else if n >= 2 {
            assert(view_lines(pieces@) =~= p);
            self.splice_lines(col, &pieces);
            self.modified = true;
        }
    }

    /// Split the cursor's line at column `col` and put lines `pieces` (at
    /// least two) between its head and tail; the cursor goes to the end of
    /// the last piece.
    fn splice_lines(&mut self, col: usize, pieces: &Vec<Vec<char>>)
        requires
            old(self).wf(),
            col <= old(self).current_line().len(),
            pieces@.len() >= 2,
        ensures
            final(self).wf(),
            final(self).text() == pasted_lines(
                old(self).text(),
                old(self).cursor_row as int,
                col as int,
                view_lines(pieces@),
            ),
            final(self).cursor_row == old(self).cursor_row + pieces@.len() - 1,
            final(self).cursor_col == min_nat(
                pieces@[pieces@.len() - 1]@.len(),
                final(self).col_limit(),
            ),
            *final(self) == (TextEditor {
                lines: final(self).lines,
                cursor_row: final(self).cursor_row,
                cursor_col: final(self).cursor_col,
                ..*old(self)
            }),
    {
        let ghost t = self.text();
        let ghost p = view_lines(pieces@);
        let row = self.cursor_row;
        let n = pieces.len();
        let ghost start = *self;
            let head = prefix_to(&self.lines[row], col);
            let tail = suffix_from(&self.lines[row], col);
            let first = concat_chars(&head, &pieces[0]);
            let last = concat_chars(&pieces[n - 1], &tail);
            self.put_line(row, first);
            let ghost t1 = self.text();
            let ghost saved = *self;
            let mut i: usize = 1;
            while i < n - 1
                invariant
                    1 <= i <= n - 1,
                    n == pieces@.len(),
                    n >= 2,
                    row < t.len(),
                    self.lines@.len() == t.len() + (i - 1),
                    forall|k: int| 0 <= k < n ==> #[trigger] pieces@[k]@ == p[k],
                    p.len() == n,
                    self.text() == t1.subrange(0, row + 1) + p.subrange(1, i as int) + t1.subrange(
                        row + 1,
                        t1.len() as int,
                    ),
                    t1.len() == t.len(),
                    *self == (TextEditor { lines: self.lines, ..saved }),
                decreases n - 1 - i,
            {
                let l = copy_chars(&pieces[i], 0, pieces[i].len());
                assert(pieces@[i as int]@.subrange(0, pieces@[i as int]@.len() as int) =~= p[i as int]);
                let cur = self.lines.len();
                assert(row + i <= cur);
                self.insert_line(row + i, l);
                assert(self.text() =~= t1.subrange(0, row + 1) + p.subrange(1, i + 1) + t1.subrange(
                    row + 1,
                    t1.len() as int,
                ));
                i = i + 1;
            }
            let cur = self.lines.len();
            assert(row + n - 1 <= cur);
            let last_len = pieces[n - 1].len();
            self.insert_line(row + (n - 1), last);
            assert(self.text() =~= pasted_lines(t, row as int, col as int, p));
            let cur2 = self.lines.len();
            assert(row + n - 1 < cur2);
            self.cursor_row = row + (n - 1);
            self.cursor_col = last_len;
            self.clamp_cursor_col();
    }
}

} // verus!
