use vstd::prelude::*;
use vstd::string::StringExecFns;
use crate::editor::{TextEditor, VimMode, min_nat, view_lines};
use crate::buffer::{count_message, copy_range, suffix_from, prefix_to, one_line};
use crate::edit_more::{leading_spaces, joined_pair};
use crate::text::{joined, join_lines_text, string_of, concat_chars, copy_chars, decimal, toggled, upper_of, lower_of, toggle_char, to_upper, to_lower};

verus! {

/// How a visual case change treats each character.
#[derive(Debug, Clone, Copy, PartialEq, Eq)]
pub enum CaseChange {
    Toggle,
    Lower,
    Upper,
}

pub open spec fn case_of(k: CaseChange, c: char) -> char {
    match k {
        CaseChange::Toggle => toggled(c),
        CaseChange::Lower => lower_of(c),
        CaseChange::Upper => upper_of(c),
    }
}

fn change_case(k: CaseChange, c: char) -> (r: char)
    ensures
        r == case_of(k, c),
{
    match k {
        CaseChange::Toggle => toggle_char(c),
        CaseChange::Lower => to_lower(c),
        CaseChange::Upper => to_upper(c),
    }
}

/// The selection between an anchor and the cursor in document order:
/// `(start_row, start_col, end_row, end_col)`.
pub open spec fn ordered(ar: int, ac: int, cr: int, cc: int) -> (int, int, int, int) {
    if cr < ar || (cr == ar && cc < ac) {
        (cr, cc, ar, ac)
    } else {
        (ar, ac, cr, cc)
    }
}

/// The characters a character-wise selection covers, one entry per line.
pub open spec fn char_span(t: Seq<Seq<char>>, sr: int, sc: int, er: int, ec: int) -> Seq<Seq<char>> {
    if sr == er {
        let s = t[sr];
        let hi = min_nat((ec + 1) as nat, s.len()) as int;
        let lo = min_nat(sc as nat, hi as nat) as int;
        seq![s.subrange(lo, hi)]
    } else {
        let f = t[sr];
        let l = t[er];
        let lo = min_nat(sc as nat, f.len()) as int;
        let hi = min_nat((ec + 1) as nat, l.len()) as int;
        seq![f.subrange(lo, f.len() as int)] + t.subrange(sr + 1, er) + seq![l.subrange(0, hi)]
    }
}

/// The buffer once a character-wise selection is cut out of it.
pub open spec fn char_cut(t: Seq<Seq<char>>, sr: int, sc: int, er: int, ec: int) -> Seq<Seq<char>> {
    if sr == er {
        let s = t[sr];
        let hi = min_nat((ec + 1) as nat, s.len()) as int;
        let lo = min_nat(sc as nat, hi as nat) as int;
        t.update(sr, s.subrange(0, lo) + s.subrange(hi, s.len() as int))
    } else {
        let f = t[sr];
        let l = t[er];
        let lo = min_nat(sc as nat, f.len()) as int;
        let hi = min_nat((ec + 1) as nat, l.len()) as int;
        t.subrange(0, sr) + seq![f.subrange(0, lo) + l.subrange(hi, l.len() as int)] + t.subrange(
            er + 1,
            t.len() as int,
        )
    }
}

/// Lines `row..row+k` joined one after another onto line `row`.
pub open spec fn joined_n(t: Seq<Seq<char>>, row: int, k: nat) -> Seq<Seq<char>>
    decreases k,
{
    if k == 0 {
        t
    } else {
        let u = joined_n(t, row, (k - 1) as nat);
        if row + 1 < u.len() {
            u.update(row, joined_pair(u[row], u[row + 1])).remove(row + 1)
        } else {
            u
        }
    }
}

/// The buffer of `o` once its selection is cut out: whole lines in Visual
/// Line mode (one empty line is left when none remain), else characters.
pub open spec fn cut_text(o: TextEditor) -> Seq<Seq<char>> {
    let (sr, sc, er, ec) = o.selection();
    let t = o.text();
    let rest = t.subrange(0, sr) + t.subrange(er + 1, t.len() as int);
    if o.mode is VisualLine {
        if rest.len() == 0 {
            seq![Seq::<char>::empty()]
        } else {
            rest
        }
    } else {
        char_cut(t, sr, sc, er, ec)
    }
}

/// `n` is `o` once its selection is cut out (d).
pub open spec fn selection_deleted(o: TextEditor, n: TextEditor) -> bool {
    let (sr, sc, er, ec) = o.selection();
    &&& n.text() == cut_text(o)
    &&& n.cursor_row == min_nat(sr as nat, (n.lines@.len() - 1) as nat)
    &&& n.cursor_col == min_nat(sc as nat, n.col_limit())
}

/// `n` is `o` with every selected line indented by four spaces (>).
pub open spec fn selection_indented(o: TextEditor, n: TextEditor) -> bool {
    let (sr, sc, er, ec) = o.selection();
    let t = o.text();
    &&& n.text().len() == t.len()
    &&& forall|i: int|
        0 <= i < t.len() ==> #[trigger] n.text()[i] == (if sr <= i <= er {
            seq![' ', ' ', ' ', ' '] + t[i]
        } else {
            t[i]
        })
}

/// `n` is `o` with every selected line outdented by up to four spaces (<).
pub open spec fn selection_outdented(o: TextEditor, n: TextEditor) -> bool {
    let (sr, sc, er, ec) = o.selection();
    let t = o.text();
    &&& n.text().len() == t.len()
    &&& forall|i: int|
        0 <= i < t.len() ==> if sr <= i <= er {
            outdent_rel(t[i], #[trigger] n.text()[i])
        } else {
            n.text()[i] == t[i]
        }
}

/// `n` is `o` with the case of the selected characters changed.
pub open spec fn selection_case_changed(o: TextEditor, kind: CaseChange, n: TextEditor) -> bool {
    let (sr, sc, er, ec) = o.selection();
    let t = o.text();
    &&& n.text().len() == t.len()
    &&& forall|i: int|
        0 <= i < t.len() ==> if sr <= i <= er {
            case_rel(t[i], #[trigger] n.text()[i], line_from(i, sr, sc), line_to(t[i], i, er, ec), kind)
        } else {
            n.text()[i] == t[i]
        }
}

impl TextEditor {
    /// The selection as `(start_row, start_col, end_row, end_col)` in document
    /// order; Visual Line mode takes whole lines. An anchor past the end of
    /// the buffer counts as the last line.
    pub open spec fn selection(&self) -> (int, int, int, int) {
        let ar = min_nat(self.visual_start_row as nat, (self.lines@.len() - 1) as nat) as int;
        let (sr, sc, er, ec) = ordered(
            ar,
            self.visual_start_col as int,
            self.cursor_row as int,
            self.cursor_col as int,
        );
        if self.mode is VisualLine {
            (sr, 0, er, self.text()[er].len() as int)
        } else {
            (sr, sc, er, ec)
        }
    }

    /// The text a selection covers, one entry per line.
    pub open spec fn selected(&self) -> Seq<Seq<char>> {
        let (sr, sc, er, ec) = self.selection();
        if self.mode is VisualLine {
            self.text().subrange(sr, er + 1)
        } else {
            char_span(self.text(), sr, sc, er, ec)
        }
    }

    /// Get the visual selection range (start_row, start_col, end_row, end_col).
    pub fn get_visual_selection(&self) -> (r: (usize, usize, usize, usize))
        requires
            self.wf(),
        ensures
            (r.0 as int, r.1 as int, r.2 as int, r.3 as int) == self.selection(),
            r.0 <= r.2 < self.lines@.len(),
    {
        let last = self.lines.len() - 1;
        let ar = if self.visual_start_row < last {
            self.visual_start_row
        } else {
            last
        };
        let ac = self.visual_start_col;
        let cr = self.cursor_row;
        let cc = self.cursor_col;
        let (sr, sc, er, ec) = if cr < ar || (cr == ar && cc < ac) {
            (cr, cc, ar, ac)
        } else {
            (ar, ac, cr, cc)
        };
        if matches!(self.mode, VimMode::VisualLine) {
            (sr, 0, er, self.lines[er].len())
        } else {
            (sr, sc, er, ec)
        }
    }

    /// Copies of the selected text, one entry per line.
    fn selected_lines(&self) -> (r: (Vec<Vec<char>>, usize, usize, usize, usize))
        requires
            self.wf(),
        ensures
            view_lines(r.0@) == self.selected(),
            (r.1 as int, r.2 as int, r.3 as int, r.4 as int) == self.selection(),
            r.1 <= r.3 < self.lines@.len(),
    {
        let (sr, sc, er, ec) = self.get_visual_selection();
        let n = self.lines.len();
        assert(er < n);
        if matches!(self.mode, VimMode::VisualLine) {
            let v = copy_range(&self.lines, sr, er + 1);
            return (v, sr, sc, er, ec);
        }
        let ghost t = self.text();
        if sr == er {
            let len = self.lines[sr].len();
            let hi = if ec < len {
                ec + 1
            } else {
                len
            };
            let lo = if sc < hi {
                sc
            } else {
                hi
            };
            let v = one_line(copy_chars(&self.lines[sr], lo, hi));
            assert(view_lines(v@) =~= self.selected());
            (v, sr, sc, er, ec)
        } else {
            let flen = self.lines[sr].len();
            let llen = self.lines[er].len();
            let lo = if sc < flen {
                sc
            } else {
                flen
            };
            let hi = if ec < llen {
                ec + 1
            } else {
                llen
            };
            let mut v = one_line(suffix_from(&self.lines[sr], lo));
            let mid = copy_range(&self.lines, sr + 1, er);
            let mut i: usize = 0;
            let ghost v0 = view_lines(v@);
            while i < mid.len()
                invariant
                    i <= mid@.len(),
                    view_lines(v@) == v0 + view_lines(mid@).take(i as int),
                decreases mid@.len() - i,
            {
                let l = copy_chars(&mid[i], 0, mid[i].len());
                assert(mid@[i as int]@.subrange(0, mid@[i as int]@.len() as int) =~= mid@[i as int]@);
                let ghost before = view_lines(v@);
                v.push(l);
                assert(view_lines(v@) =~= before.push(mid@[i as int]@));
                assert(view_lines(mid@).take(i + 1) =~= view_lines(mid@).take(i as int).push(
                    mid@[i as int]@,
                ));
                i = i + 1;
            }
            assert(view_lines(mid@).take(mid@.len() as int) =~= view_lines(mid@));
            let ghost before = view_lines(v@);
            v.push(prefix_to(&self.lines[er], hi));
            assert(view_lines(v@) =~= before.push(t[er as int].subrange(0, hi as int)));
            assert(view_lines(v@) =~= self.selected());
            (v, sr, sc, er, ec)
        }
    }

    /// Take lines `from..to` out of the buffer.
    fn remove_lines(&mut self, from: usize, to: usize)
        requires
            from <= to <= old(self).lines@.len(),
        ensures
            final(self).text() == old(self).text().subrange(0, from as int) + old(self).text().subrange(
                to as int,
                old(self).lines@.len() as int,
            ),
            final(self).lines@.len() == old(self).lines@.len() - (to - from),
            *final(self) == (TextEditor { lines: final(self).lines, ..*old(self) }),
    {
        let ghost t0 = self.text();
        let mut k: usize = from;
        while k < to
            invariant
                from <= k <= to <= t0.len(),
                self.text() == t0.subrange(0, from as int) + t0.subrange(k as int, t0.len() as int),
                self.lines@.len() == t0.len() - (k - from),
                *self == (TextEditor { lines: self.lines, ..*old(self) }),
            decreases to - k,
        {
            self.remove_line(from);
            assert(self.text() =~= t0.subrange(0, from as int) + t0.subrange(k + 1, t0.len() as int));
            k = k + 1;
        }
    }

    /// Delete the visual selection and return to Normal mode. Line-wise
    /// selections go to the register as lines; others as characters.
    pub fn delete_visual_selection(&mut self)
        requires
            old(self).wf(),
        ensures
            final(self).wf(),
            final(self).recorded(old(self)),
            final(self).register() == old(self).selected(),
            final(self).clipboard_is_line == (old(self).mode is VisualLine),
            selection_deleted(*old(self), *final(self)),
            final(self).modified,
            final(self).mode == VimMode::Normal,
            final(self).status_message@ == "-- NORMAL --"@,
    {
        self.save_undo();
        let linewise = matches!(self.mode, VimMode::VisualLine);
        let (reg, sr, sc, er, ec) = self.selected_lines();
        self.cursor_col = 0;
        self.enter_normal_mode();
        let ghost t = self.text();
        let n = self.lines.len();
        assert(er < n);
        if linewise {
            self.remove_lines(sr, er + 1);
            if self.lines.len() == 0 {
                self.insert_line(0, Vec::new());
                assert(self.text() =~= seq![Seq::<char>::empty()]);
            }
        } else if sr == er {
            let len = self.lines[sr].len();
            let hi = if ec < len {
                ec + 1
            } else {
                len
            };
            let lo = if sc < hi {
                sc
            } else {
                hi
            };
            let a = prefix_to(&self.lines[sr], lo);
            let b = suffix_from(&self.lines[sr], hi);
            let line = concat_chars(&a, &b);
            self.put_line(sr, line);
        } else {
            let flen = self.lines[sr].len();
            let llen = self.lines[er].len();
            let lo = if sc < flen {
                sc
            } else {
                flen
            };
            let hi = if ec < llen {
                ec + 1
            } else {
                llen
            };
            let a = prefix_to(&self.lines[sr], lo);
            let b = suffix_from(&self.lines[er], hi);
            let line = concat_chars(&a, &b);
            self.remove_lines(sr + 1, er + 1);
            self.put_line(sr, line);
            assert(self.text() =~= char_cut(t, sr as int, sc as int, er as int, ec as int));
        }
        self.clipboard = reg;
        self.clipboard_is_line = linewise;
        let last = self.lines.len() - 1;
        self.cursor_row = if sr < last {
            sr
        } else {
            last
        };
        self.cursor_col = sc;
        self.modified = true;
        self.clamp_cursor_col();
    }

    /// Yank the visual selection and return to Normal mode at its start.
    pub fn yank_visual_selection(&mut self)
        requires
            old(self).wf(),
        ensures
            final(self).wf(),
            final(self).text() == old(self).text(),
            final(self).register() == old(self).selected(),
            final(self).clipboard_is_line == (old(self).mode is VisualLine),
            ({
                let (sr, sc, er, ec) = old(self).selection();
                &&& final(self).cursor_row == sr
                &&& final(self).cursor_col == min_nat(sc as nat, final(self).col_limit())
                &&& (old(self).mode is VisualLine) ==> final(self).status_message@ == decimal(
                    (er - sr + 1) as nat,
                ) + " lines yanked"@
                &&& !(old(self).mode is VisualLine) ==> final(self).status_message@ == "Yanked"@
            }),
            final(self).mode == VimMode::Normal,
            final(self).undo_stack == old(self).undo_stack,
            final(self).redo_stack == old(self).redo_stack,
            final(self).modified == old(self).modified,
    {
        let linewise = matches!(self.mode, VimMode::VisualLine);
        let (reg, sr, sc, er, ec) = self.selected_lines();
        let n = self.lines.len();
        assert(er < n);
        self.cursor_col = 0;
        self.enter_normal_mode();
        self.clipboard = reg;
        self.clipboard_is_line = linewise;
        self.cursor_row = sr;
        self.cursor_col = sc;
        self.clamp_cursor_col();
        if linewise {
            self.status_message = count_message(er - sr + 1, " lines yanked");
        } else {
            self.status_message = String::from_str("Yanked");
        }
    }

    /// The selected text, lines joined with line feeds; empty outside the
    /// visual modes.
    pub fn get_visual_selection_text(&self) -> (r: String)
        requires
            self.wf(),
        ensures
            self.in_visual() ==> r@ == joined(self.selected()),
            !self.in_visual() ==> r@.len() == 0,
    {
        if !matches!(self.mode, VimMode::Visual) && !matches!(self.mode, VimMode::VisualLine) {
            return String::new();
        }
        let (reg, _, _, _, _) = self.selected_lines();
        let v = join_lines_text(&reg);
        string_of(v.as_slice())
    }

    /// Indent every selected line by four spaces (>) and return to Normal mode.
    pub fn indent_visual_selection(&mut self)
        requires
            old(self).wf(),
        ensures
            final(self).wf(),
            final(self).recorded(old(self)),
            selection_indented(*old(self), *final(self)),
            final(self).modified,
            final(self).mode == VimMode::Normal,
    {
        let (sr, _, er, _) = self.get_visual_selection();
        self.save_undo();
        let ghost t = self.text();
        let ghost saved = *self;
        let n = self.lines.len();
        let mut row = sr;
        while row <= er
            invariant
                sr <= row <= er + 1,
                er < t.len(),
                n == t.len(),
                saved.wf(),
                *self == (TextEditor { lines: self.lines, ..saved }),
                self.lines@.len() == t.len(),
                self.text().len() == t.len(),
                forall|i: int|
                    0 <= i < t.len() ==> #[trigger] self.text()[i] == (if sr <= i < row {
                        seq![' ', ' ', ' ', ' '] + t[i]
                    } else {
                        t[i]
                    }),
            decreases er + 1 - row,
        {
            let mut pad: Vec<char> = Vec::new();
            pad.push(' ');
            pad.push(' ');
            pad.push(' ');
            pad.push(' ');
            assert(pad@ =~= seq![' ', ' ', ' ', ' ']);
            assert(self.text()[row as int] == t[row as int]);
            let line = concat_chars(&pad, &self.lines[row]);
            self.put_line(row, line);
            row = row + 1;
        }
        self.modified = true;
        self.enter_normal_mode();
    }
}

} // verus!

verus! {

/// `u` is `s` without up to four leading spaces.
pub open spec fn outdent_rel(s: Seq<char>, u: Seq<char>) -> bool {
    exists|k: int| leading_spaces(s, k) && u == s.subrange(k, s.len() as int)
}

/// `u` is `s` with the case of columns `from..to` changed.
pub open spec fn case_rel(s: Seq<char>, u: Seq<char>, from: int, to: int, kind: CaseChange) -> bool {
    &&& u.len() == s.len()
    &&& forall|j: int|
        0 <= j < s.len() ==> #[trigger] u[j] == (if from <= j < to {
            case_of(kind, s[j])
        } else {
            s[j]
        })
}

/// First selected column of line `i` of a selection starting at `(sr, sc)`.
pub open spec fn line_from(i: int, sr: int, sc: int) -> int {
    if i == sr {
        sc
    } else {
        0
    }
}

/// Column after the last selected one of line `i`, for a selection ending at `(er, ec)`.
pub open spec fn line_to(s: Seq<char>, i: int, er: int, ec: int) -> int {
    if i == er {
        min_nat((ec + 1) as nat, s.len()) as int
    } else {
        s.len() as int
    }
}

/// A line without up to four leading spaces, and how many went.
pub fn outdented(l: &Vec<char>) -> (r: (Vec<char>, usize))
    ensures
        leading_spaces(l@, r.1 as int),
        r.0@ == l@.subrange(r.1 as int, l@.len() as int),
{
    let mut k: usize = 0;
    while k < 4 && k < l.len() && l[k] == ' '
        invariant
            k <= 4,
            k <= l@.len(),
            forall|j: int| 0 <= j < k ==> l@[j] == ' ',
        decreases 4 - k,
    {
        k = k + 1;
    }
    (suffix_from(l, k), k)
}

/// A line with the case of columns `from..to` changed.
pub fn case_range(l: &Vec<char>, from: usize, to: usize, kind: CaseChange) -> (r: Vec<char>)
    ensures
        r@.len() == l@.len(),
        forall|j: int|
            0 <= j < l@.len() ==> #[trigger] r@[j] == (if from <= j < to {
                case_of(kind, l@[j])
            } else {
                l@[j]
            }),
{
    let mut out: Vec<char> = Vec::new();
    let mut j: usize = 0;
    while j < l.len()
        invariant
            j <= l@.len(),
            out@.len() == j,
            forall|k: int|
                0 <= k < j ==> #[trigger] out@[k] == (if from <= k < to {
                    case_of(kind, l@[k])
                } else {
                    l@[k]
                }),
        decreases l@.len() - j,
    {
        if from <= j && j < to {
            out.push(change_case(kind, l[j]));
        } else {
            out.push(l[j]);
        }
        j = j + 1;
    }
    out
}

impl TextEditor {
    /// Outdent every selected line by up to four spaces (<) and return to Normal mode.
    pub fn outdent_visual_selection(&mut self)
        requires
            old(self).wf(),
        ensures
            final(self).wf(),
            final(self).recorded(old(self)),
            selection_outdented(*old(self), *final(self)),
            final(self).modified,
            final(self).mode == VimMode::Normal,
    {
        let (sr, _, er, _) = self.get_visual_selection();
        self.save_undo();
        let ghost t = self.text();
        let ghost saved = *self;
        let n = self.lines.len();
        let mut row = sr;
        while row <= er
            invariant
                sr <= row <= er + 1,
                er < t.len(),
                n == t.len(),
                saved.wf(),
                *self == (TextEditor { lines: self.lines, ..saved }),
                self.lines@.len() == t.len(),
                self.text().len() == t.len(),
                forall|i: int|
                    0 <= i < t.len() ==> if sr <= i < row {
                        outdent_rel(t[i], #[trigger] self.text()[i])
                    } else {
                        self.text()[i] == t[i]
                    },
            decreases er + 1 - row,
        {
            assert(self.text()[row as int] == t[row as int]);
            let ghost prev = self.text();
            let (line, k) = outdented(&self.lines[row]);
            self.put_line(row, line);
            assert(leading_spaces(t[row as int], k as int));
            assert(self.text()[row as int] == t[row as int].subrange(k as int, t[row as int].len() as int));
            assert(outdent_rel(t[row as int], self.text()[row as int]));
            assert forall|i: int|
                0 <= i < t.len() && i != row implies #[trigger] self.text()[i] == prev[i] by {
            }
            row = row + 1;
        }
        self.modified = true;
        self.enter_normal_mode();
    }

    /// Change the case of the selected characters and return to Normal mode
    /// (~ toggles, u lowers, U raises).
    pub fn change_case_visual_selection(&mut self, kind: CaseChange)
        requires
            old(self).wf(),
        ensures
            final(self).wf(),
            final(self).recorded(old(self)),
            selection_case_changed(*old(self), kind, *final(self)),
            final(self).modified,
            final(self).mode == VimMode::Normal,
    {
        let (sr, sc, er, ec) = self.get_visual_selection();
        self.save_undo();
        let ghost t = self.text();
        let ghost saved = *self;
        let n = self.lines.len();
        let mut row = sr;
        while row <= er
            invariant
                sr <= row <= er + 1,
                er < t.len(),
                n == t.len(),
                saved.wf(),
                *self == (TextEditor { lines: self.lines, ..saved }),
                self.lines@.len() == t.len(),
                self.text().len() == t.len(),
                forall|i: int|
                    0 <= i < t.len() ==> if sr <= i < row {
                        case_rel(t[i], #[trigger] self.text()[i], line_from(i, sr as int, sc as int), line_to(t[i], i, er as int, ec as int), kind)
                    } else {
                        self.text()[i] == t[i]
                    },
            decreases er + 1 - row,
        {
            assert(self.text()[row as int] == t[row as int]);
            let len = self.lines[row].len();
            let from = if row == sr {
                sc
            } else {
                0
            };
            let to = if row == er {
                if ec < len {
                    ec + 1
                } else {
                    len
                }
            } else {
                len
            };
            let ghost prev = self.text();
            let line = case_range(&self.lines[row], from, to, kind);
            assert(case_rel(t[row as int], line@, line_from(row as int, sr as int, sc as int), line_to(t[row as int], row as int, er as int, ec as int), kind));
            self.put_line(row, line);
            assert forall|i: int|
                0 <= i < t.len() && i != row implies #[trigger] self.text()[i] == prev[i] by {
            }
            row = row + 1;
        }
        self.modified = true;
        self.enter_normal_mode();
    }

    /// Join all selected lines into one (J) and return to Normal mode; one
    /// undo takes the whole join back.
    pub fn join_visual_selection(&mut self)
        requires
            old(self).wf(),
        ensures
            final(self).wf(),
            final(self).recorded(old(self)),
            ({
                let (sr, sc, er, ec) = old(self).selection();
                &&& final(self).text() == joined_n(old(self).text(), sr, (er - sr) as nat)
                &&& final(self).cursor_row == sr
                &&& sr < er ==> final(self).modified
            }),
            final(self).mode == VimMode::Normal,
    {
        let (sr, _, er, _) = self.get_visual_selection();
        self.save_undo();
        let ghost u = self.undo_stack;
        let ghost rd = self.redo_stack;
        self.cursor_row = sr;
        self.cursor_col = 0;
        self.enter_normal_mode();
        let ghost t = self.text();
        let mut k: usize = 0;
        while k < er - sr
            invariant
                self.wf(),
                sr <= er < t.len(),
                k <= er - sr,
                self.cursor_row == sr,
                self.mode == VimMode::Normal,
                self.text() == joined_n(t, sr as int, k as nat),
                self.undo_stack == u,
                self.redo_stack == rd,
                k > 0 ==> self.modified,
            decreases er - sr - k,
        {
            self.join_next();
            k = k + 1;
        }
    }
}

} // verus!
