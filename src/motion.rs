use vstd::prelude::*;
use crate::editor::{TextEditor, VimMode, max_col, min_nat};
use crate::text::{whitespace_of, word_char, is_space, is_word_char};

verus! {

/// Character class: 0 for whitespace, 1 for word characters, 2 for the rest.
pub open spec fn class_of(c: char) -> int {
    if whitespace_of(c) {
        0
    } else if word_char(c) {
        1
    } else {
        2
    }
}

/// Column `j` of `s` begins a word: a non-blank character after a blank or
/// after a character of another class.
pub open spec fn word_start(s: Seq<char>, j: int) -> bool {
    &&& 0 < j < s.len()
    &&& !whitespace_of(s[j])
    &&& (whitespace_of(s[j - 1]) || class_of(s[j - 1]) != class_of(s[j]))
}

/// Column `j` of `s` begins a word when looking back: like `word_start`, and
/// column 0 counts when it is not blank.
pub open spec fn word_start_back(s: Seq<char>, j: int) -> bool {
    &&& 0 <= j < s.len()
    &&& !whitespace_of(s[j])
    &&& (j == 0 || whitespace_of(s[j - 1]) || class_of(s[j - 1]) != class_of(s[j]))
}

/// Column `j` of `s` ends a word: a non-blank character before the end of the
/// line or before a character of another class.
pub open spec fn word_end(s: Seq<char>, j: int) -> bool {
    &&& 0 <= j < s.len()
    &&& !whitespace_of(s[j])
    &&& (j + 1 == s.len() || class_of(s[j + 1]) != class_of(s[j]))
}

/// `j` is the first column at or after `from` that ends a word; when none
/// does, `j` is the last column of the line (0 on an empty line).
pub open spec fn end_of_word_from(s: Seq<char>, from: int, j: int) -> bool {
    if exists|k: int| from <= k && word_end(s, k) {
        &&& from <= j
        &&& word_end(s, j)
        &&& forall|k: int| from <= k < j ==> !word_end(s, k)
    } else {
        j == max_col(s.len(), false)
    }
}

/// The column of the first non-blank character, 0 when there is none.
pub open spec fn first_nonblank_at(s: Seq<char>, j: int) -> bool {
    if exists|k: int| 0 <= k < s.len() && !whitespace_of(s[k]) {
        &&& 0 <= j < s.len()
        &&& !whitespace_of(s[j])
        &&& forall|k: int| 0 <= k < j ==> whitespace_of(s[k])
    } else {
        j == 0
    }
}

/// Column of the first non-blank character of a line, 0 when there is none.
pub fn first_nonblank(s: &Vec<char>) -> (j: usize)
    ensures
        first_nonblank_at(s@, j as int),
{
    let mut j: usize = 0;
    while j < s.len()
        invariant
            j <= s@.len(),
            forall|k: int| 0 <= k < j ==> whitespace_of(s@[k]),
        decreases s@.len() - j,
    {
        if !is_space(s[j]) {
            return j;
        }
        j = j + 1;
    }
    0
}

fn class(c: char) -> (r: u8)
    ensures
        r as int == class_of(c),
{
    if is_space(c) {
        0
    } else if is_word_char(c) {
        1
    } else {
        2
    }
}

/// First column at or after `from` that ends a word, as `end_of_word_from` says.
pub fn find_word_end(s: &Vec<char>, from: usize) -> (j: usize)
    ensures
        end_of_word_from(s@, from as int, j as int),
{
    let mut j: usize = from;
    while j < s.len()
        invariant
            from <= j,
            forall|k: int| from <= k < j ==> !word_end(s@, k),
        decreases s@.len() - j,
    {
        if !is_space(s[j]) && (j + 1 == s.len() || class(s[j + 1]) != class(s[j])) {
            assert(word_end(s@, j as int));
            return j;
        }
        j = j + 1;
    }
    assert forall|k: int| from <= k implies !word_end(s@, k) by {
        if k < j {
        }
    }
    if s.len() > 0 {
        s.len() - 1
    } else {
        0
    }
}

/// The first column after `c` that begins a word, if the line has one.
pub fn next_word_start(line: &Vec<char>, c: usize) -> (r: Option<usize>)
    ensures
        match r {
            Some(j) => {
                &&& c < j
                &&& word_start(line@, j as int)
                &&& forall|k: int| c < k < j ==> !word_start(line@, k)
            },
            None => forall|k: int| c < k ==> !word_start(line@, k),
        },
{
    let ghost s = line@;
    let len = line.len();
    let mut col = c;
    if col >= len {
        return None;
    }
    let k = class(line[col]);
    if k != 0 {
        while col < len && class(line[col]) == k
            invariant
                s == line@,
                len == s.len(),
                c <= col <= len,
                c < len,
                k as int == class_of(s[c as int]),
                k != 0,
                forall|j: int| c <= j < col ==> class_of(#[trigger] s[j]) == k as int,
            decreases len - col,
        {
            col = col + 1;
        }
    }
    let mid = col;
    while col < len && is_space(line[col])
        invariant
            s == line@,
            len == s.len(),
            c < len,
            mid <= col <= len,
            forall|j: int| mid <= j < col ==> whitespace_of(#[trigger] s[j]),
        decreases len - col,
    {
        col = col + 1;
    }
    assert(col > c) by {
        if mid == c {
            assert(whitespace_of(s[c as int]));
        }
    }
    assert forall|j: int| c < j < col implies !word_start(s, j) by {
        if j < mid {
            assert(class_of(s[j]) == class_of(s[j - 1]));
        } else {
            assert(whitespace_of(s[j]));
        }
    }
    if col < len {
        assert(word_start(s, col as int)) by {
            if col > mid {
                assert(whitespace_of(s[col - 1]));
            } else {
                assert(class_of(s[col as int]) != class_of(s[col - 1]));
            }
        }
        Some(col)
    } else {
        None
    }
}

impl TextEditor {
    pub fn move_cursor_left(&mut self)
        requires
            old(self).wf(),
        ensures
            final(self).wf(),
            final(self).cursor_col == (if old(self).cursor_col > 0 {
                old(self).cursor_col - 1
            } else {
                0
            }),
            *final(self) == (TextEditor { cursor_col: final(self).cursor_col, ..*old(self) }),
    {
        if self.cursor_col > 0 {
            self.cursor_col = self.cursor_col - 1;
        }
    }

    pub fn move_cursor_right(&mut self)
        requires
            old(self).wf(),
        ensures
            final(self).wf(),
            final(self).cursor_col == (if old(self).cursor_col < old(self).col_limit() {
                old(self).cursor_col + 1
            } else {
                old(self).cursor_col as int
            }),
            *final(self) == (TextEditor { cursor_col: final(self).cursor_col, ..*old(self) }),
    {
        let line_len = self.lines[self.cursor_row].len();
        let max_col = if matches!(self.mode, VimMode::Insert) {
            line_len
        } else if line_len > 0 {
            line_len - 1
        } else {
            0
        };
        if self.cursor_col < max_col {
            self.cursor_col = self.cursor_col + 1;
        }
    }

    pub fn move_cursor_up(&mut self)
        requires
            old(self).wf(),
        ensures
            final(self).wf(),
            final(self).cursor_row == (if old(self).cursor_row > 0 {
                old(self).cursor_row - 1
            } else {
                0
            }),
            old(self).cursor_row > 0 ==> final(self).cursor_col == min_nat(
                old(self).cursor_col as nat,
                final(self).col_limit(),
            ),
            old(self).cursor_row == 0 ==> final(self).cursor_col == old(self).cursor_col,
            *final(self) == (TextEditor {
                cursor_row: final(self).cursor_row,
                cursor_col: final(self).cursor_col,
                ..*old(self)
            }),
    {
        if self.cursor_row > 0 {
            self.cursor_row = self.cursor_row - 1;
            self.clamp_cursor_col();
        }
    }

    pub fn move_cursor_down(&mut self)
        requires
            old(self).wf(),
        ensures
            final(self).wf(),
            final(self).cursor_row == (if old(self).cursor_row + 1 < old(self).lines@.len() {
                old(self).cursor_row + 1
            } else {
                old(self).cursor_row as int
            }),
            old(self).cursor_row + 1 < old(self).lines@.len() ==> final(self).cursor_col
                == min_nat(old(self).cursor_col as nat, final(self).col_limit()),
            old(self).cursor_row + 1 >= old(self).lines@.len() ==> final(self).cursor_col
                == old(self).cursor_col,
            *final(self) == (TextEditor {
                cursor_row: final(self).cursor_row,
                cursor_col: final(self).cursor_col,
                ..*old(self)
            }),
    {
        if self.cursor_row < self.lines.len() - 1 {
            self.cursor_row = self.cursor_row + 1;
            self.clamp_cursor_col();
        }
    }

    pub fn move_to_line_start(&mut self)
        requires
            old(self).wf(),
        ensures
            final(self).wf(),
            *final(self) == (TextEditor { cursor_col: 0, ..*old(self) }),
    {
        self.cursor_col = 0;
    }

    pub fn move_to_line_end(&mut self)
        requires
            old(self).wf(),
        ensures
            final(self).wf(),
            final(self).cursor_col == old(self).col_limit(),
            *final(self) == (TextEditor { cursor_col: final(self).cursor_col, ..*old(self) }),
    {
        let line_len = self.lines[self.cursor_row].len();
        self.cursor_col = if matches!(self.mode, VimMode::Insert) {
            line_len
        } else if line_len > 0 {
            line_len - 1
        } else {
            0
        };
    }

    pub fn move_to_first_line(&mut self)
        requires
            old(self).wf(),
        ensures
            final(self).wf(),
            *final(self) == (TextEditor { cursor_row: 0, cursor_col: 0, ..*old(self) }),
    {
        self.cursor_row = 0;
        self.cursor_col = 0;
    }

    pub fn move_to_last_line(&mut self)
        requires
            old(self).wf(),
        ensures
            final(self).wf(),
            *final(self) == (TextEditor {
                cursor_row: (old(self).lines.len() - 1) as usize,
                cursor_col: 0,
                ..*old(self)
            }),
    {
        self.cursor_row = self.lines.len() - 1;
        self.cursor_col = 0;
    }

    /// Move to line number (1-indexed), clamped to the last line; 0 does nothing.
    pub fn move_to_line(&mut self, line_num: usize)
        requires
            old(self).wf(),
        ensures
            final(self).wf(),
            line_num == 0 ==> *final(self) == *old(self),
            line_num > 0 ==> *final(self) == (TextEditor {
                cursor_row: min_nat((line_num - 1) as nat, (old(self).lines@.len() - 1) as nat)
                    as usize,
                cursor_col: 0,
                ..*old(self)
            }),
    {
        if line_num > 0 {
            let last = self.lines.len() - 1;
            self.cursor_row = if line_num - 1 < last {
                line_num - 1
            } else {
                last
            };
            self.cursor_col = 0;
        }
    }

    /// Move to the first non-blank character (^).
    pub fn move_to_first_nonblank(&mut self)
        requires
            old(self).wf(),
        ensures
            final(self).wf(),
            first_nonblank_at(old(self).current_line(), final(self).cursor_col as int),
            *final(self) == (TextEditor { cursor_col: final(self).cursor_col, ..*old(self) }),
    {
        self.cursor_col = first_nonblank(&self.lines[self.cursor_row]);
    }

    /// Move the cursor down by `n` lines, clamped to the last line.
    fn move_rows_down(&mut self, n: usize)
        requires
            old(self).wf(),
        ensures
            final(self).wf(),
            final(self).cursor_row == min_nat(
                (old(self).cursor_row + n) as nat,
                (old(self).lines@.len() - 1) as nat,
            ),
            final(self).cursor_col == min_nat(old(self).cursor_col as nat, final(self).col_limit()),
            *final(self) == (TextEditor {
                cursor_row: final(self).cursor_row,
                cursor_col: final(self).cursor_col,
                ..*old(self)
            }),
    {
        let last = self.lines.len() - 1;
        self.cursor_row = if n <= last - self.cursor_row {
            self.cursor_row + n
        } else {
            last
        };
        self.clamp_cursor_col();
    }

    /// Move the cursor up by `n` lines, stopping at the first line.
    fn move_rows_up(&mut self, n: usize)
        requires
            old(self).wf(),
        ensures
            final(self).wf(),
            final(self).cursor_row == (if old(self).cursor_row >= n {
                old(self).cursor_row - n
            } else {
                0
            }),
            final(self).cursor_col == min_nat(old(self).cursor_col as nat, final(self).col_limit()),
            *final(self) == (TextEditor {
                cursor_row: final(self).cursor_row,
                cursor_col: final(self).cursor_col,
                ..*old(self)
            }),
    {
        self.cursor_row = if self.cursor_row >= n {
            self.cursor_row - n
        } else {
            0
        };
        self.clamp_cursor_col();
    }

    /// Move half page down (15 lines).
    pub fn move_half_page_down(&mut self)
        requires
            old(self).wf(),
        ensures
            final(self).wf(),
            final(self).cursor_row == min_nat(
                (old(self).cursor_row + 15) as nat,
                (old(self).lines@.len() - 1) as nat,
            ),
            final(self).cursor_col == min_nat(old(self).cursor_col as nat, final(self).col_limit()),
            final(self).text() == old(self).text(),
    {
        self.move_rows_down(15);
    }

    /// Move half page up (15 lines).
    pub fn move_half_page_up(&mut self)
        requires
            old(self).wf(),
        ensures
            final(self).wf(),
            final(self).cursor_row == (if old(self).cursor_row >= 15 {
                old(self).cursor_row - 15
            } else {
                0
            }),
            final(self).cursor_col == min_nat(old(self).cursor_col as nat, final(self).col_limit()),
            final(self).text() == old(self).text(),
    {
        self.move_rows_up(15);
    }

    /// Move full page down (30 lines).
    pub fn move_page_down(&mut self)
        requires
            old(self).wf(),
        ensures
            final(self).wf(),
            final(self).cursor_row == min_nat(
                (old(self).cursor_row + 30) as nat,
                (old(self).lines@.len() - 1) as nat,
            ),
            final(self).cursor_col == min_nat(old(self).cursor_col as nat, final(self).col_limit()),
            final(self).text() == old(self).text(),
    {
        self.move_rows_down(30);
    }

    /// Move full page up (30 lines).
    pub fn move_page_up(&mut self)
        requires
            old(self).wf(),
        ensures
            final(self).wf(),
            final(self).cursor_row == (if old(self).cursor_row >= 30 {
                old(self).cursor_row - 30
            } else {
                0
            }),
            final(self).cursor_col == min_nat(old(self).cursor_col as nat, final(self).col_limit()),
            final(self).text() == old(self).text(),
    {
        self.move_rows_up(30);
    }

    /// Move forward to the start of the next word (w). Past the last word of a
    /// line it goes to the first non-blank of the next line, or to the last
    /// column on the last line.
    pub fn move_word_forward(&mut self)
        requires
            old(self).wf(),
        ensures
            final(self).wf(),
            final(self).text() == old(self).text(),
            final(self).mode == old(self).mode,
            ({
                let s = old(self).current_line();
                let c = old(self).cursor_col as int;
                let last_row = old(self).cursor_row + 1 == old(self).lines@.len();
                if exists|k: int| c < k && word_start(s, k) {
                    &&& final(self).cursor_row == old(self).cursor_row
                    &&& c < final(self).cursor_col
                    &&& word_start(s, final(self).cursor_col as int)
                    &&& forall|k: int| c < k < final(self).cursor_col ==> !word_start(s, k)
                } else if !last_row {
                    &&& final(self).cursor_row == old(self).cursor_row + 1
                    &&& first_nonblank_at(final(self).current_line(), final(self).cursor_col as int)
                } else if c >= s.len() {
                    final(self).cursor_row == old(self).cursor_row && final(self).cursor_col
                        == old(self).cursor_col
                } else {
                    final(self).cursor_row == old(self).cursor_row && final(self).cursor_col
                        == max_col(s.len(), false)
                }
            }),
            *final(self) == (TextEditor {
                cursor_row: final(self).cursor_row,
                cursor_col: final(self).cursor_col,
                ..*old(self)
            }),
    {
        let row = self.cursor_row;
        let len = self.lines[row].len();
        let c = self.cursor_col;
        match next_word_start(&self.lines[row], c) {
            Some(j) => {
                self.cursor_col = j;
            },
            None => {
                if row < self.lines.len() - 1 {
                    self.cursor_row = row + 1;
                    self.cursor_col = first_nonblank(&self.lines[row + 1]);
                } else if c < len {
                    self.cursor_col = len - 1;
                }
            },
        }
    }

    /// Move backward to the start of a word (b). At column 0 it goes to the
    /// last column of the previous line.
    pub fn move_word_backward(&mut self)
        requires
            old(self).wf(),
        ensures
            final(self).wf(),
            final(self).text() == old(self).text(),
            ({
                let s = old(self).current_line();
                let c = old(self).cursor_col as int;
                if c == 0 {
                    if old(self).cursor_row > 0 {
                        &&& final(self).cursor_row == old(self).cursor_row - 1
                        &&& final(self).cursor_col == max_col(final(self).current_line().len(), false)
                    } else {
                        final(self).cursor_row == 0 && final(self).cursor_col == 0
                    }
                } else if exists|k: int| 0 <= k < c && word_start_back(s, k) {
                    &&& final(self).cursor_row == old(self).cursor_row
                    &&& final(self).cursor_col < c
                    &&& word_start_back(s, final(self).cursor_col as int)
                    &&& forall|k: int| final(self).cursor_col < k < c ==> !word_start_back(s, k)
                } else {
                    final(self).cursor_row == old(self).cursor_row && final(self).cursor_col == 0
                }
            }),
            *final(self) == (TextEditor {
                cursor_row: final(self).cursor_row,
                cursor_col: final(self).cursor_col,
                ..*old(self)
            }),
    {
        let row = self.cursor_row;
        let c = self.cursor_col;
        if c == 0 {
            if row > 0 {
                self.cursor_row = row - 1;
                let l = self.lines[row - 1].len();
                self.cursor_col = if l > 0 {
                    l - 1
                } else {
                    0
                };
            }
            return;
        }
        let ghost s = self.lines@[row as int]@;
        let len = self.lines[row].len();
        let mut col = c - 1;
        if col >= len {
            // Past the end of the line (insert mode): step onto its last character.
            col = if len > 0 {
                len - 1
            } else {
                0
            };
        }
        if len == 0 {
            self.cursor_col = 0;
            return;
        }
        let top = col;
        while col > 0 && is_space(self.lines[row][col])
            invariant
                row < self.lines@.len(),
                s == self.lines@[row as int]@,
                len == s.len(),
                0 <= col <= top < c,
                top < len,
                forall|j: int| col < j <= top ==> whitespace_of(#[trigger] s[j]),
            decreases col,
        {
            col = col - 1;
        }
        let mid = col;
        if !is_space(self.lines[row][col]) {
            let k = class(self.lines[row][col]);
            while col > 0 && class(self.lines[row][col - 1]) == k
                invariant
                    row < self.lines@.len(),
                    s == self.lines@[row as int]@,
                    len == s.len(),
                    0 <= col <= mid,
                    mid <= top < c,
                    top < len,
                    k as int == class_of(s[mid as int]),
                    k != 0,
                    forall|j: int| col <= j <= mid ==> class_of(#[trigger] s[j]) == k as int,
                decreases col,
            {
                col = col - 1;
            }
            assert(word_start_back(s, col as int));
            assert forall|j: int| col < j < c implies !word_start_back(s, j) by {
                if j <= mid {
                    assert(class_of(s[j]) == class_of(s[j - 1]));
                } else if j <= top {
                    assert(whitespace_of(s[j]));
                } else {
                    assert(j >= len);
                }
            }
        } else {
            assert forall|j: int| 0 <= j < c implies !word_start_back(s, j) by {
                if j <= top {
                    assert(whitespace_of(s[j]));
                } else {
                    assert(j >= len);
                }
            }
        }
        self.cursor_col = col;
    }

    /// Move to the end of a word (e). At or past the last column it goes to
    /// column 0 of the next line; when the rest of the line is blank it goes to
    /// the end of the first word of the next line.
    #[verifier::rlimit(40)]
    pub fn move_word_end(&mut self)
        requires
            old(self).wf(),
        ensures
            final(self).wf(),
            final(self).text() == old(self).text(),
            ({
                let s = old(self).current_line();
                let c = old(self).cursor_col as int;
                let last_row = old(self).cursor_row + 1 == old(self).lines@.len();
                if c + 1 >= s.len() {
                    if !last_row {
                        final(self).cursor_row == old(self).cursor_row + 1 && final(self).cursor_col == 0
                    } else {
                        final(self).cursor_row == old(self).cursor_row && final(self).cursor_col
                            == old(self).cursor_col
                    }
                } else if exists|k: int| c < k && word_end(s, k) {
                    &&& final(self).cursor_row == old(self).cursor_row
                    &&& end_of_word_from(s, c + 1, final(self).cursor_col as int)
                } else if !last_row {
                    &&& final(self).cursor_row == old(self).cursor_row + 1
                    &&& end_of_word_from(final(self).current_line(), 0, final(self).cursor_col as int)
                } else {
                    final(self).cursor_row == old(self).cursor_row && final(self).cursor_col
                        == old(self).cursor_col
                }
            }),
            *final(self) == (TextEditor {
                cursor_row: final(self).cursor_row,
                cursor_col: final(self).cursor_col,
                ..*old(self)
            }),
    {
        let row = self.cursor_row;
        let c = self.cursor_col;
        let len = self.lines[row].len();
        let last_row = row == self.lines.len() - 1;
        if len == 0 || c >= len - 1 {
            if !last_row {
                self.cursor_row = row + 1;
                self.cursor_col = 0;
            }
            return;
        }
        let j = find_word_end(&self.lines[row], c + 1);
        if j > c && j < len && !is_space(self.lines[row][j]) && (j + 1 == len || class(
            self.lines[row][j + 1],
        ) != class(self.lines[row][j])) {
            assert(word_end(self.lines@[row as int]@, j as int));
            self.cursor_col = j;
            return;
        }
        let ghost s = self.lines@[row as int]@;
        assert forall|k: int| c < k implies !word_end(s, k) by {
            if exists|m: int| c + 1 <= m && word_end(s, m) {
                assert(word_end(s, j as int));
            }
        }
        if !last_row {
            self.cursor_row = row + 1;
            let nj = find_word_end(&self.lines[row + 1], 0);
            self.cursor_col = nj;
            assert(end_of_word_from(self.current_line(), 0, nj as int));
        }
    }
}

} // verus!
