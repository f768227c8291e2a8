use vstd::prelude::*;
use crate::editor::{TextEditor, VimMode, min_nat, max_col};
use crate::text::{chars_of, string_of, concat_chars, word_char, is_word_char, copy_chars};

verus! {

/// `p` occurs in `s` starting at column `i`.
pub open spec fn matches_at(s: Seq<char>, p: Seq<char>, i: int) -> bool {
    &&& 0 <= i
    &&& i + p.len() <= s.len()
    &&& s.subrange(i, i + p.len()) == p
}

/// Position `(r1, c1)` comes before `(r2, c2)` in the buffer.
pub open spec fn before(r1: int, c1: int, r2: int, c2: int) -> bool {
    r1 < r2 || (r1 == r2 && c1 < c2)
}

/// A match after the cursor `(row, col)`, on its line or below.
pub open spec fn hit_after(t: Seq<Seq<char>>, p: Seq<char>, row: int, col: int, r: int, i: int) -> bool {
    &&& row <= r < t.len()
    &&& (r > row || i >= col + 1)
    &&& matches_at(t[r], p, i)
}

/// A match found after wrapping to the top: above the cursor's line, or on it
/// and ending at or before the cursor.
pub open spec fn hit_wrapped(t: Seq<Seq<char>>, p: Seq<char>, row: int, col: int, r: int, i: int) -> bool {
    &&& 0 <= r <= row
    &&& r < t.len()
    &&& (r < row || i + p.len() <= col)
    &&& matches_at(t[r], p, i)
}

/// A match before the cursor: on its line ending at or before it, or above.
pub open spec fn hit_before(t: Seq<Seq<char>>, p: Seq<char>, row: int, col: int, r: int, i: int) -> bool {
    &&& 0 <= r <= row
    &&& r < t.len()
    &&& (r < row || i + p.len() <= col)
    &&& matches_at(t[r], p, i)
}

/// A match found after wrapping to the bottom: below the cursor's line, or on
/// it starting after the cursor.
pub open spec fn hit_wrapped_back(t: Seq<Seq<char>>, p: Seq<char>, row: int, col: int, r: int, i: int) -> bool {
    &&& row <= r < t.len()
    &&& (r > row || i >= col + 1)
    &&& matches_at(t[r], p, i)
}

/// Where a forward search (`n`) from `(row, col)` leaves the cursor
/// `(nr, nc)` and what it reports: the first match after the cursor, else the
/// first from the top up to the cursor (reported as wrapped), else no move.
pub open spec fn forward_search_outcome(
    t: Seq<Seq<char>>,
    p: Seq<char>,
    row: int,
    col: int,
    nr: int,
    nc: int,
    status: Seq<char>,
) -> bool {
    if p.len() == 0 {
        &&& status == "No search pattern"@
        &&& nr == row && nc == col
    } else if exists|r: int, i: int| hit_after(t, p, row, col, r, i) {
        &&& hit_after(t, p, row, col, nr, nc)
        &&& forall|r: int, i: int|
            hit_after(t, p, row, col, r, i) ==> !before(r, i, nr, nc)
        &&& status == "/"@ + p
    } else if exists|r: int, i: int| hit_wrapped(t, p, row, col, r, i) {
        &&& hit_wrapped(t, p, row, col, nr, nc)
        &&& forall|r: int, i: int|
            hit_wrapped(t, p, row, col, r, i) ==> !before(r, i, nr, nc)
        &&& status == "/"@ + p + " (wrapped)"@
    } else {
        &&& nr == row && nc == col
        &&& status == "Pattern not found: "@ + p
    }
}

/// Where a backward search (`N`) from `(row, col)` leaves the cursor and what
/// it reports: the last match before the cursor, else the last from the bottom
/// back to the cursor (reported as wrapped), else no move.
pub open spec fn backward_search_outcome(
    t: Seq<Seq<char>>,
    p: Seq<char>,
    row: int,
    col: int,
    nr: int,
    nc: int,
    status: Seq<char>,
) -> bool {
    if p.len() == 0 {
        &&& status == "No search pattern"@
        &&& nr == row && nc == col
    } else if exists|r: int, i: int| hit_before(t, p, row, col, r, i) {
        &&& hit_before(t, p, row, col, nr, nc)
        &&& forall|r: int, i: int|
            hit_before(t, p, row, col, r, i) ==> !before(nr, nc, r, i)
        &&& status == "?"@ + p
    } else if exists|r: int, i: int| hit_wrapped_back(t, p, row, col, r, i) {
        &&& hit_wrapped_back(t, p, row, col, nr, nc)
        &&& forall|r: int, i: int|
            hit_wrapped_back(t, p, row, col, r, i) ==> !before(nr, nc, r, i)
        &&& status == "?"@ + p + " (wrapped)"@
    } else {
        &&& nr == row && nc == col
        &&& status == "Pattern not found: "@ + p
    }
}

/// Whether `p` occurs in `s` at column `i`.
pub fn match_at(s: &Vec<char>, p: &Vec<char>, i: usize) -> (r: bool)
    ensures
        r == matches_at(s@, p@, i as int),
{
    if i > s.len() || p.len() > s.len() - i {
        return false;
    }
    let mut k: usize = 0;
    while k < p.len()
        invariant
            i + p@.len() <= s@.len(),
            s@.len() == s.len(),
            k <= p@.len(),
            forall|j: int| 0 <= j < k ==> s@[i + j] == p@[j],
        decreases p@.len() - k,
    {
        if s[i + k] != p[k] {
            assert(s@.subrange(i as int, i + p@.len())[k as int] != p@[k as int]);
            return false;
        }
        k = k + 1;
    }
    assert(s@.subrange(i as int, i + p@.len()) =~= p@);
    true
}

/// The first column at or after `from` where `p` occurs and ends by `limit`.
pub fn find_from(s: &Vec<char>, p: &Vec<char>, from: usize, limit: usize) -> (r: Option<usize>)
    requires
        limit <= s@.len(),
        p@.len() > 0,
    ensures
        match r {
            Some(i) => from <= i && i + p@.len() <= limit && matches_at(s@, p@, i as int) && forall|
                j: int,
            | from <= j < i && j + p@.len() <= limit ==> !matches_at(s@, p@, j),
            None => forall|j: int| from <= j && j + p@.len() <= limit ==> !matches_at(s@, p@, j),
        },
{
    let mut i: usize = from;
    while i <= limit && p.len() <= limit - i
        invariant
            from <= i,
            limit <= s@.len(),
            p@.len() > 0,
            forall|j: int| from <= j < i && j + p@.len() <= limit ==> !matches_at(s@, p@, j),
        decreases limit + 1 - i,
    {
        if match_at(s, p, i) {
            return Some(i);
        }
        i = i + 1;
    }
    None
}

/// The last column where `p` occurs starting at or after `from` and ending by `limit`.
pub fn rfind_from(s: &Vec<char>, p: &Vec<char>, from: usize, limit: usize) -> (r: Option<usize>)
    requires
        limit <= s@.len(),
        p@.len() > 0,
    ensures
        match r {
            Some(i) => from <= i && i + p@.len() <= limit && matches_at(s@, p@, i as int) && forall|
                j: int,
            | i < j && j + p@.len() <= limit ==> !matches_at(s@, p@, j),
            None => forall|j: int| from <= j && j + p@.len() <= limit ==> !matches_at(s@, p@, j),
        },
{
    if p.len() > limit {
        return None;
    }
    let mut i: usize = limit - p.len() + 1;
    while i > from
        invariant
            limit <= s@.len(),
            p@.len() <= limit,
            i <= limit - p@.len() + 1,
            forall|j: int| i <= j && j + p@.len() <= limit ==> !matches_at(s@, p@, j),
        decreases i,
    {
        i = i - 1;
        if match_at(s, p, i) {
            return Some(i);
        }
    }
    None
}

/// A status line made of a prefix and a pattern.
pub fn prefixed(prefix: &str, p: &Vec<char>) -> (r: String)
    ensures
        r@ == prefix@ + p@,
{
    let a = chars_of(prefix);
    let all = concat_chars(&a, p);
    string_of(all.as_slice())
}

/// A status line made of a prefix, a pattern and a suffix.
pub fn pattern_message(prefix: &str, p: &Vec<char>, suffix: &str) -> (r: String)
    ensures
        r@ == prefix@ + p@ + suffix@,
{
    let a = chars_of(prefix);
    let b = chars_of(suffix);
    let ap = concat_chars(&a, p);
    let all = concat_chars(&ap, &b);
    string_of(all.as_slice())
}

impl TextEditor {
    /// Search the next occurrence of the pattern (n): after the cursor to the
    /// end of the buffer, then from the top back to the cursor.
    pub fn search_next(&mut self)
        requires
            old(self).wf(),
        ensures
            final(self).wf(),
            final(self).text() == old(self).text(),
            final(self).mode == old(self).mode,
            final(self).search_pattern == old(self).search_pattern,
            final(self).search_direction == old(self).search_direction,
            *final(self) == (TextEditor {
                cursor_row: final(self).cursor_row,
                cursor_col: final(self).cursor_col,
                status_message: final(self).status_message,
                ..*old(self)
            }),
            forward_search_outcome(
                old(self).text(),
                old(self).search_pattern@,
                old(self).cursor_row as int,
                old(self).cursor_col as int,
                final(self).cursor_row as int,
                final(self).cursor_col as int,
                final(self).status_message@,
            ),
    {
        if self.search_pattern.len() == 0 {
            self.status_message = String::from_str("No search pattern");
            return;
        }
        let ghost t = self.text();
        let ghost p = self.search_pattern@;
        let start_row = self.cursor_row;
        let start_col = self.cursor_col;
        let n = self.lines.len();
        let mut row = start_row;
        while row < n
            invariant
                old(self).wf(),
                *self == *old(self),
                t == self.text(),
                p == self.search_pattern@,
                p.len() > 0,
                n == self.lines@.len(),
                start_row == self.cursor_row,
                start_col == self.cursor_col,
                start_row <= row <= n,
                forall|r: int, i: int|
                    hit_after(t, p, start_row as int, start_col as int, r, i) ==> r >= row,
            decreases n - row,
        {
            let len = self.lines[row].len();
            let from = if row == start_row {
                if start_col < len {
                    start_col + 1
                } else {
                    len
                }
            } else {
                0
            };
            assert(t[row as int] == self.lines@[row as int]@);
            match find_from(&self.lines[row], &self.search_pattern, from, len) {
                Some(i) => {
                    assert(hit_after(t, p, start_row as int, start_col as int, row as int, i as int));
                    assert forall|r: int, j: int|
                        hit_after(t, p, start_row as int, start_col as int, r, j) implies !before(
                        r,
                        j,
                        row as int,
                        i as int,
                    ) by {
                        if r == row {
                            assert(j >= from);
                        }
                    }
                    self.cursor_row = row;
                    self.cursor_col = i;
                    assert(self.current_line() == self.lines@[row as int]@);
                    self.status_message = prefixed("/", &self.search_pattern);
                    return;
                },
                None => {
                    assert forall|r: int, j: int|
                        hit_after(t, p, start_row as int, start_col as int, r, j) implies r >= row
                        + 1 by {
                        if r == row {
                            assert(j >= from);
                        }
                    }
                },
            }
            row = row + 1;
        }
        let mut row: usize = 0;
        while row <= start_row
            invariant
                old(self).wf(),
                *self == *old(self),
                t == self.text(),
                p == self.search_pattern@,
                p.len() > 0,
                n == self.lines@.len(),
                start_row == self.cursor_row,
                start_col == self.cursor_col,
                start_row < n,
                row <= start_row + 1,
                forall|r: int, i: int| !hit_after(t, p, start_row as int, start_col as int, r, i),
                forall|r: int, i: int|
                    hit_wrapped(t, p, start_row as int, start_col as int, r, i) ==> r >= row,
            decreases start_row + 1 - row,
        {
            let len = self.lines[row].len();
            let limit = if row == start_row {
                if start_col < len {
                    start_col
                } else {
                    len
                }
            } else {
                len
            };
            assert(t[row as int] == self.lines@[row as int]@);
            match find_from(&self.lines[row], &self.search_pattern, 0, limit) {
                Some(i) => {
                    assert(hit_wrapped(t, p, start_row as int, start_col as int, row as int, i as int));
                    assert forall|r: int, j: int|
                        hit_wrapped(t, p, start_row as int, start_col as int, r, j) implies !before(
                        r,
                        j,
                        row as int,
                        i as int,
                    ) by {
                        if r == row {
                            assert(j + p.len() <= limit);
                        }
                    }
                    self.cursor_row = row;
                    self.cursor_col = i;
                    assert(self.current_line() == self.lines@[row as int]@);
                    self.status_message = pattern_message("/", &self.search_pattern, " (wrapped)");
                    return;
                },
                None => {
                    assert forall|r: int, j: int|
                        hit_wrapped(t, p, start_row as int, start_col as int, r, j) implies r >= row
                        + 1 by {
                        if r == row {
                            assert(j + p.len() <= limit);
                        }
                    }
                },
            }
            row = row + 1;
        }
        self.status_message = prefixed("Pattern not found: ", &self.search_pattern);
    }

    /// Search the previous occurrence of the pattern (N): before the cursor to
    /// the top of the buffer, then from the bottom back to the cursor.
    pub fn search_prev(&mut self)
        requires
            old(self).wf(),
        ensures
            final(self).wf(),
            final(self).text() == old(self).text(),
            final(self).mode == old(self).mode,
            final(self).search_pattern == old(self).search_pattern,
            final(self).search_direction == old(self).search_direction,
            *final(self) == (TextEditor {
                cursor_row: final(self).cursor_row,
                cursor_col: final(self).cursor_col,
                status_message: final(self).status_message,
                ..*old(self)
            }),
            backward_search_outcome(
                old(self).text(),
                old(self).search_pattern@,
                old(self).cursor_row as int,
                old(self).cursor_col as int,
                final(self).cursor_row as int,
                final(self).cursor_col as int,
                final(self).status_message@,
            ),
    {
        if self.search_pattern.len() == 0 {
            self.status_message = String::from_str("No search pattern");
            return;
        }
        let ghost t = self.text();
        let ghost p = self.search_pattern@;
        let start_row = self.cursor_row;
        let start_col = self.cursor_col;
        let n = self.lines.len();
        let mut row = start_row + 1;
        while row > 0
            invariant
                old(self).wf(),
                *self == *old(self),
                t == self.text(),
                p == self.search_pattern@,
                p.len() > 0,
                n == self.lines@.len(),
                start_row == self.cursor_row,
                start_col == self.cursor_col,
                start_row < n,
                row <= start_row + 1,
                forall|r: int, i: int|
                    hit_before(t, p, start_row as int, start_col as int, r, i) ==> r < row,
            decreases row,
        {
            row = row - 1;
            let len = self.lines[row].len();
            let limit = if row == start_row {
                if start_col < len {
                    start_col
                } else {
                    len
                }
            } else {
                len
            };
            assert(t[row as int] == self.lines@[row as int]@);
            match rfind_from(&self.lines[row], &self.search_pattern, 0, limit) {
                Some(i) => {
                    assert(hit_before(t, p, start_row as int, start_col as int, row as int, i as int));
                    assert forall|r: int, j: int|
                        hit_before(t, p, start_row as int, start_col as int, r, j) implies !before(
                        row as int,
                        i as int,
                        r,
                        j,
                    ) by {
                        if r == row {
                            assert(j + p.len() <= limit);
                        }
                    }
                    self.cursor_row = row;
                    self.cursor_col = i;
                    assert(self.current_line() == self.lines@[row as int]@);
                    self.status_message = prefixed("?", &self.search_pattern);
                    return;
                },
                None => {
                    assert forall|r: int, j: int|
                        hit_before(t, p, start_row as int, start_col as int, r, j) implies r
                        < row by {
                        if r == row {
                            assert(j + p.len() <= limit);
                        }
                    }
                },
            }
        }
        let mut row = n;
        while row > start_row
            invariant
                old(self).wf(),
                *self == *old(self),
                t == self.text(),
                p == self.search_pattern@,
                p.len() > 0,
                n == self.lines@.len(),
                start_row == self.cursor_row,
                start_col == self.cursor_col,
                start_row < n,
                start_row <= row <= n,
                forall|r: int, i: int| !hit_before(t, p, start_row as int, start_col as int, r, i),
                forall|r: int, i: int|
                    hit_wrapped_back(t, p, start_row as int, start_col as int, r, i) ==> r < row,
            decreases row,
        {
            row = row - 1;
            let len = self.lines[row].len();
            let from = if row == start_row {
                if start_col < len {
                    start_col + 1
                } else {
                    len
                }
            } else {
                0
            };
            assert(t[row as int] == self.lines@[row as int]@);
            match rfind_from(&self.lines[row], &self.search_pattern, from, len) {
                Some(i) => {
                    assert(hit_wrapped_back(t, p, start_row as int, start_col as int, row as int, i as int));
                    assert forall|r: int, j: int|
                        hit_wrapped_back(t, p, start_row as int, start_col as int, r, j) implies !before(
                        row as int,
                        i as int,
                        r,
                        j,
                    ) by {
                        if r == row {
                            assert(j >= from);
                        }
                    }
                    self.cursor_row = row;
                    self.cursor_col = i;
                    assert(self.current_line() == self.lines@[row as int]@);
                    self.status_message = pattern_message("?", &self.search_pattern, " (wrapped)");
                    return;
                },
                None => {
                    assert forall|r: int, j: int|
                        hit_wrapped_back(t, p, start_row as int, start_col as int, r, j) implies r
                        < row by {
                        if r == row {
                            assert(j >= from);
                        }
                    }
                },
            }
        }
        self.status_message = prefixed("Pattern not found: ", &self.search_pattern);
    }
}

} // verus!

verus! {

/// The run of word characters around column `c`: it starts at `a` and ends before `b`.
pub open spec fn word_around(s: Seq<char>, c: int, a: int, b: int) -> bool {
    &&& 0 <= a <= c <= b <= s.len()
    &&& forall|j: int| a <= j < c ==> word_char(#[trigger] s[j])
    &&& forall|j: int| c <= j < b ==> word_char(#[trigger] s[j])
    &&& (a == 0 || !word_char(s[a - 1]))
    &&& (b == s.len() || !word_char(s[b]))
}

impl TextEditor {
    /// Run the search typed on the command line, in the direction it was
    /// opened with, and return to Normal mode. An empty line only closes it.
    pub fn execute_search(&mut self)
        requires
            old(self).wf(),
        ensures
            final(self).wf(),
            final(self).mode == VimMode::Normal,
            final(self).text() == old(self).text(),
            old(self).command_buffer@.len() == 0 ==> {
                &&& final(self).status_message@ == "-- NORMAL --"@
                &&& final(self).search_pattern == old(self).search_pattern
                &&& final(self).cursor_row == old(self).cursor_row
            },
            final(self).command_buffer@.len() == 0,
            old(self).command_buffer@.len() > 0 ==> {
                &&& final(self).last_search_col == old(self).cursor_col
                &&& final(self).last_search_row == old(self).cursor_row
            },
            old(self).command_buffer@.len() > 0 ==> {
                let col = min_nat(
                    old(self).cursor_col as nat,
                    max_col(old(self).current_line().len(), false),
                ) as int;
                &&& final(self).search_pattern@ == old(self).command_buffer@
                &&& final(self).search_direction == old(self).search_direction
                &&& final(self).last_search_row == old(self).cursor_row
                &&& old(self).search_direction ==> forward_search_outcome(
                    old(self).text(),
                    old(self).command_buffer@,
                    old(self).cursor_row as int,
                    col,
                    final(self).cursor_row as int,
                    final(self).cursor_col as int,
                    final(self).status_message@,
                )
                &&& !old(self).search_direction ==> backward_search_outcome(
                    old(self).text(),
                    old(self).command_buffer@,
                    old(self).cursor_row as int,
                    col,
                    final(self).cursor_row as int,
                    final(self).cursor_col as int,
                    final(self).status_message@,
                )
            },
    {
        if self.command_buffer.len() == 0 {
            self.enter_normal_mode();
            return;
        }
        let pattern = copy_chars(&self.command_buffer, 0, self.command_buffer.len());
        assert(self.command_buffer@.subrange(0, self.command_buffer@.len() as int)
            =~= self.command_buffer@);
        self.last_search_row = self.cursor_row;
        self.last_search_col = self.cursor_col;
        self.enter_normal_mode();
        self.search_pattern = pattern;
        if self.search_direction {
            self.search_next();
        } else {
            self.search_prev();
        }
    }

    /// Search forward for the word under the cursor (*).
    pub fn search_word_under_cursor(&mut self)
        requires
            old(self).wf(),
        ensures
            final(self).wf(),
            final(self).text() == old(self).text(),
            final(self).mode == old(self).mode,
            ({
                let s = old(self).current_line();
                let c = old(self).cursor_col as int;
                if c < s.len() && word_char(s[c]) {
                    &&& exists|a: int, b: int|
                        word_around(s, c, a, b) && final(self).search_pattern@ == s.subrange(a, b)
                    &&& final(self).search_direction
                    &&& forward_search_outcome(
                        old(self).text(),
                        final(self).search_pattern@,
                        old(self).cursor_row as int,
                        c,
                        final(self).cursor_row as int,
                        final(self).cursor_col as int,
                        final(self).status_message@,
                    )
                } else {
                    *final(self) == *old(self)
                }
            }),
    {
        let row = self.cursor_row;
        let c = self.cursor_col;
        let len = self.lines[row].len();
        if c >= len || !is_word_char(self.lines[row][c]) {
            return;
        }
        let ghost s = self.lines@[row as int]@;
        let mut a = c;
        while a > 0 && is_word_char(self.lines[row][a - 1])
            invariant
                row < self.lines@.len(),
                s == self.lines@[row as int]@,
                a <= c < len,
                len == s.len(),
                forall|j: int| a <= j < c ==> word_char(#[trigger] s[j]),
            decreases a,
        {
            a = a - 1;
        }
        let mut b = c;
        while b < len && is_word_char(self.lines[row][b])
            invariant
                row < self.lines@.len(),
                s == self.lines@[row as int]@,
                c <= b <= len,
                len == s.len(),
                forall|j: int| c <= j < b ==> word_char(#[trigger] s[j]),
            decreases len - b,
        {
            b = b + 1;
        }
        assert(word_around(s, c as int, a as int, b as int));
        self.search_pattern = copy_chars(&self.lines[row], a, b);
        self.search_direction = true;
        self.search_next();
    }
}

} // verus!
