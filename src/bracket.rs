use vstd::prelude::*;
use crate::editor::TextEditor;

verus! {

/// The partner of a bracket and whether it lies forward; `None` for other characters.
pub open spec fn partner(c: char) -> Option<(char, bool)> {
    if c == '(' {
        Some((')', true))
    } else if c == ')' {
        Some(('(', false))
    } else if c == '[' {
        Some((']', true))
    } else if c == ']' {
        Some(('[', false))
    } else if c == '{' {
        Some(('}', true))
    } else if c == '}' {
        Some(('{', false))
    } else if c == '<' {
        Some(('>', true))
    } else if c == '>' {
        Some(('<', false))
    } else {
        None
    }
}

fn partner_of(c: char) -> (r: Option<(char, bool)>)
    ensures
        r == partner(c),
{
    if c == '(' {
        Some((')', true))
    } else if c == ')' {
        Some(('(', false))
    } else if c == '[' {
        Some((']', true))
    } else if c == ']' {
        Some(('[', false))
    } else if c == '{' {
        Some(('}', true))
    } else if c == '}' {
        Some(('{', false))
    } else if c == '<' {
        Some(('>', true))
    } else if c == '>' {
        Some(('<', false))
    } else {
        None
    }
}

/// How a character moves the nesting depth: `o` opens, `cl` closes.
pub open spec fn delta(ch: char, o: char, cl: char) -> int {
    if ch == o {
        1
    } else if ch == cl {
        -1
    } else {
        0
    }
}

/// Depth change over columns `from..to` of a line.
pub open spec fn span_balance(s: Seq<char>, o: char, cl: char, from: int, to: int) -> int
    decreases to - from,
{
    if to <= from {
        0
    } else {
        span_balance(s, o, cl, from, to - 1) + delta(s[to - 1], o, cl)
    }
}

/// Depth change over whole lines `r1..r2`.
pub open spec fn rows_balance(t: Seq<Seq<char>>, o: char, cl: char, r1: int, r2: int) -> int
    decreases r2 - r1,
{
    if r2 <= r1 {
        0
    } else {
        rows_balance(t, o, cl, r1, r2 - 1) + span_balance(t[r2 - 1], o, cl, 0, t[r2 - 1].len() as int)
    }
}

/// A character position after `(r0, c0)`.
pub open spec fn after_pos(t: Seq<Seq<char>>, r0: int, c0: int, r: int, c: int) -> bool {
    &&& r0 <= r < t.len()
    &&& 0 <= c < t[r].len()
    &&& (r > r0 || c > c0)
}

/// A character position before `(r0, c0)`.
pub open spec fn before_pos(t: Seq<Seq<char>>, r0: int, c0: int, r: int, c: int) -> bool {
    &&& 0 <= r <= r0
    &&& r < t.len()
    &&& 0 <= c < t[r].len()
    &&& (r < r0 || c < c0)
}

/// Nesting depth after scanning forward from just past `(r0, c0)` through `(r, c)`.
pub open spec fn depth_forward(t: Seq<Seq<char>>, o: char, cl: char, r0: int, c0: int, r: int, c: int) -> int {
    1 + if r == r0 {
        span_balance(t[r0], o, cl, c0 + 1, c + 1)
    } else {
        span_balance(t[r0], o, cl, c0 + 1, t[r0].len() as int) + rows_balance(t, o, cl, r0 + 1, r)
            + span_balance(t[r], o, cl, 0, c + 1)
    }
}

/// Nesting depth after scanning backward from just before `(r0, c0)` through `(r, c)`.
pub open spec fn depth_backward(t: Seq<Seq<char>>, o: char, cl: char, r0: int, c0: int, r: int, c: int) -> int {
    1 + if r == r0 {
        span_balance(t[r0], o, cl, c, c0)
    } else {
        span_balance(t[r0], o, cl, 0, c0) + rows_balance(t, o, cl, r + 1, r0) + span_balance(
            t[r],
            o,
            cl,
            c,
            t[r].len() as int,
        )
    }
}

/// `(r, c)` holds the bracket matching the one at `(r0, c0)`: the first
/// position, scanning away from it, where the depth comes back to zero.
pub open spec fn matching_at(t: Seq<Seq<char>>, r0: int, c0: int, r: int, c: int) -> bool {
    match partner(t[r0][c0]) {
        Some((cl, true)) => {
            &&& after_pos(t, r0, c0, r, c)
            &&& depth_forward(t, t[r0][c0], cl, r0, c0, r, c) == 0
            &&& forall|r2: int, c2: int|
                after_pos(t, r0, c0, r2, c2) && (r2 < r || (r2 == r && c2 < c))
                    ==> #[trigger] depth_forward(t, t[r0][c0], cl, r0, c0, r2, c2) > 0
        },
        Some((cl, false)) => {
            &&& before_pos(t, r0, c0, r, c)
            &&& depth_backward(t, t[r0][c0], cl, r0, c0, r, c) == 0
            &&& forall|r2: int, c2: int|
                before_pos(t, r0, c0, r2, c2) && (r2 > r || (r2 == r && c2 > c))
                    ==> #[trigger] depth_backward(t, t[r0][c0], cl, r0, c0, r2, c2) > 0
        },
        None => false,
    }
}

/// The nesting depth stays within a `usize` on the way from `(r0, c0)` to
/// `(r, c)`: a machine limit the scan needs, met by any buffer in memory.
pub open spec fn nesting_fits(t: Seq<Seq<char>>, r0: int, c0: int, r: int, c: int) -> bool {
    match partner(t[r0][c0]) {
        Some((cl, true)) => forall|r2: int, c2: int|
            after_pos(t, r0, c0, r2, c2) && !(r2 > r || (r2 == r && c2 > c))
                ==> #[trigger] depth_forward(t, t[r0][c0], cl, r0, c0, r2, c2) <= usize::MAX,
        Some((cl, false)) => forall|r2: int, c2: int|
            before_pos(t, r0, c0, r2, c2) && !(r2 < r || (r2 == r && c2 < c))
                ==> #[trigger] depth_backward(t, t[r0][c0], cl, r0, c0, r2, c2) <= usize::MAX,
        None => true,
    }
}

proof fn lemma_span_front(s: Seq<char>, o: char, cl: char, from: int, to: int)
    requires
        from < to,
    ensures
        span_balance(s, o, cl, from, to) == delta(s[from], o, cl) + span_balance(
            s,
            o,
            cl,
            from + 1,
            to,
        ),
    decreases to - from,
{
    assert(span_balance(s, o, cl, from, to) == span_balance(s, o, cl, from, to - 1) + delta(
        s[to - 1],
        o,
        cl,
    ));
    if to - 1 > from {
        lemma_span_front(s, o, cl, from, to - 1);
        assert(span_balance(s, o, cl, from + 1, to) == span_balance(s, o, cl, from + 1, to - 1)
            + delta(s[to - 1], o, cl));
    } else {
        assert(span_balance(s, o, cl, from, from) == 0);
        assert(span_balance(s, o, cl, from + 1, to) == 0);
    }
}

proof fn lemma_rows_front(t: Seq<Seq<char>>, o: char, cl: char, r1: int, r2: int)
    requires
        r1 < r2,
    ensures
        rows_balance(t, o, cl, r1, r2) == span_balance(t[r1], o, cl, 0, t[r1].len() as int)
            + rows_balance(t, o, cl, r1 + 1, r2),
    decreases r2 - r1,
{
    if r2 - 1 > r1 {
        lemma_rows_front(t, o, cl, r1, r2 - 1);
        assert(rows_balance(t, o, cl, r1 + 1, r2) == rows_balance(t, o, cl, r1 + 1, r2 - 1)
            + span_balance(t[r2 - 1], o, cl, 0, t[r2 - 1].len() as int));
    } else {
        assert(rows_balance(t, o, cl, r1, r1) == 0);
        assert(rows_balance(t, o, cl, r1 + 1, r2) == 0);
    }
}

impl TextEditor {
    /// Jump to the bracket matching the one under the cursor (%). Nothing
    /// moves when the cursor is not on a bracket or no match exists.
    pub fn move_to_matching_bracket(&mut self)
        requires
            old(self).wf(),
        ensures
            final(self).wf(),
            final(self).text() == old(self).text(),
            *final(self) == (TextEditor {
                cursor_row: final(self).cursor_row,
                cursor_col: final(self).cursor_col,
                ..*old(self)
            }),
            (final(self).cursor_row != old(self).cursor_row || final(self).cursor_col
                != old(self).cursor_col) ==> matching_at(
                old(self).text(),
                old(self).cursor_row as int,
                old(self).cursor_col as int,
                final(self).cursor_row as int,
                final(self).cursor_col as int,
            ),
            (old(self).cursor_col >= old(self).current_line().len() || !exists|r: int, c: int|
                matching_at(
                    old(self).text(),
                    old(self).cursor_row as int,
                    old(self).cursor_col as int,
                    r,
                    c,
                )) ==> final(self).cursor_row == old(self).cursor_row && final(self).cursor_col
                == old(self).cursor_col,
            old(self).cursor_col < old(self).current_line().len() && (exists|r: int, c: int|
                #[trigger] matching_at(
                    old(self).text(),
                    old(self).cursor_row as int,
                    old(self).cursor_col as int,
                    r,
                    c,
                ) && nesting_fits(
                    old(self).text(),
                    old(self).cursor_row as int,
                    old(self).cursor_col as int,
                    r,
                    c,
                )) ==> matching_at(
                old(self).text(),
                old(self).cursor_row as int,
                old(self).cursor_col as int,
                final(self).cursor_row as int,
                final(self).cursor_col as int,
            ),
    {
        let r0 = self.cursor_row;
        let c0 = self.cursor_col;
        if c0 >= self.lines[r0].len() {
            return;
        }
        let ghost t = self.text();
        let cur = self.lines[r0][c0];
        assert(t[r0 as int][c0 as int] == cur);
        let (target, forward) = match partner_of(cur) {
            Some(p) => p,
            None => {
                return;
            },
        };
        let n = self.lines.len();
        let mut depth: usize = 1;
        if forward {
            let mut row = r0;
            let mut col = c0 + 1;
            while row < n
                invariant
                    old(self).wf(),
                    r0 == old(self).cursor_row,
                    c0 == old(self).cursor_col,
                    *self == *old(self),
                    t == self.text(),
                    n == t.len(),
                    r0 < n,
                    c0 < t[r0 as int].len(),
                    partner(cur) == Some((target, true)),
                    t[r0 as int][c0 as int] == cur,
                    r0 <= row <= n,
                    row == r0 ==> c0 + 1 <= col,
                    row < n ==> col <= t[row as int].len(),
                    depth >= 1,
                    row < n ==> depth as int == (if row == r0 {
                        1 + span_balance(t[r0 as int], cur, target, c0 + 1, col as int)
                    } else {
                        1 + span_balance(t[r0 as int], cur, target, c0 + 1, t[r0 as int].len() as int)
                            + rows_balance(t, cur, target, r0 + 1, row as int) + span_balance(
                            t[row as int],
                            cur,
                            target,
                            0,
                            col as int,
                        )
                    }),
                    forall|r2: int, c2: int|
                        after_pos(t, r0 as int, c0 as int, r2, c2) && (r2 < row || (r2 == row
                            && c2 < col)) ==> #[trigger] depth_forward(t, cur, target, r0 as int, c0 as int, r2, c2) > 0,
                decreases n - row, t[row as int].len() - col,
            {
                let len = self.lines[row].len();
                assert(t[row as int] == self.lines@[row as int]@);
                while col < len
                    invariant
                        old(self).wf(),
                        r0 == old(self).cursor_row,
                        c0 == old(self).cursor_col,
                        *self == *old(self),
                        t == self.text(),
                        n == t.len(),
                        r0 <= row < n,
                        r0 < n,
                        c0 < t[r0 as int].len(),
                        partner(cur) == Some((target, true)),
                        t[r0 as int][c0 as int] == cur,
                        len == t[row as int].len(),
                        row == r0 ==> c0 + 1 <= col,
                        col <= len,
                        depth >= 1,
                        depth as int == (if row == r0 {
                            1 + span_balance(t[r0 as int], cur, target, c0 + 1, col as int)
                        } else {
                            1 + span_balance(t[r0 as int], cur, target, c0 + 1, t[r0 as int].len() as int)
                                + rows_balance(t, cur, target, r0 + 1, row as int) + span_balance(
                                t[row as int],
                                cur,
                                target,
                                0,
                                col as int,
                            )
                        }),
                        forall|r2: int, c2: int|
                            after_pos(t, r0 as int, c0 as int, r2, c2) && (r2 < row || (r2 == row
                                && c2 < col)) ==> #[trigger] depth_forward(t, cur, target, r0 as int, c0 as int, r2, c2) > 0,
                    decreases len - col,
                {
                    let ch = self.lines[row][col];
                    assert(t[row as int][col as int] == ch);
                    if ch == cur {
                        if depth == usize::MAX {
                            assert(depth_forward(t, cur, target, r0 as int, c0 as int, row as int, col as int) == depth + 1);
                            assert forall|r: int, c: int|
                                #[trigger] matching_at(t, r0 as int, c0 as int, r, c) implies !nesting_fits(
                                t,
                                r0 as int,
                                c0 as int,
                                r,
                                c,
                            ) by {
                                if r < row || (r == row && c < col) {
                                    assert(depth_forward(t, cur, target, r0 as int, c0 as int, r, c) > 0);
                                } else {
                                    assert(after_pos(t, r0 as int, c0 as int, row as int, col as int));
                                }
                            }
                            return;
                        }
                        depth = depth + 1;
                    } else if ch == target {
                        depth = depth - 1;
                        if depth == 0 {
                            assert(depth_forward(t, cur, target, r0 as int, c0 as int, row as int, col as int) == 0);
                            assert(after_pos(t, r0 as int, c0 as int, row as int, col as int));
                            assert(matching_at(t, r0 as int, c0 as int, row as int, col as int));
                        assert(t == old(self).text());
                        assert(r0 == old(self).cursor_row && c0 == old(self).cursor_col);
                            assert(t == old(self).text());
                            assert(r0 == old(self).cursor_row && c0 == old(self).cursor_col);
                            self.cursor_row = row;
                            self.cursor_col = col;
                            assert(self.current_line() == t[row as int]);
                            return;
                        }
                    }
                    assert(depth_forward(t, cur, target, r0 as int, c0 as int, row as int, col as int) == depth);
                    col = col + 1;
                }
                row = row + 1;
                col = 0;
                if row < n {
                    assert(rows_balance(t, cur, target, r0 + 1, row as int) == (if row - 1 == r0 {
                        0
                    } else {
                        rows_balance(t, cur, target, r0 + 1, row - 1) + span_balance(t[row - 1], cur, target, 0, t[row - 1].len() as int)
                    }));
                }
            }
        } else {
            let mut row = r0;
            let mut col = c0;
            loop
                invariant
                    old(self).wf(),
                    r0 == old(self).cursor_row,
                    c0 == old(self).cursor_col,
                    *self == *old(self),
                    t == self.text(),
                    n == t.len(),
                    r0 < n,
                    c0 < t[r0 as int].len(),
                    partner(cur) == Some((target, false)),
                    t[r0 as int][c0 as int] == cur,
                    row <= r0,
                    row == r0 ==> col <= c0,
                    col <= t[row as int].len(),
                    depth >= 1,
                    depth as int == (if row == r0 {
                        1 + span_balance(t[r0 as int], cur, target, col as int, c0 as int)
                    } else {
                        1 + span_balance(t[r0 as int], cur, target, 0, c0 as int) + rows_balance(
                            t,
                            cur,
                            target,
                            row + 1,
                            r0 as int,
                        ) + span_balance(t[row as int], cur, target, col as int, t[row as int].len() as int)
                    }),
                    forall|r2: int, c2: int|
                        before_pos(t, r0 as int, c0 as int, r2, c2) && (r2 > row || (r2 == row
                            && c2 >= col)) ==> #[trigger] depth_backward(t, cur, target, r0 as int, c0 as int, r2, c2) > 0,
                ensures
                    forall|r2: int, c2: int| !#[trigger] matching_at(t, r0 as int, c0 as int, r2, c2),
                decreases row, col,
            {
                if col == 0 {
                    if row == 0 {
                        assert forall|r2: int, c2: int| !#[trigger] matching_at(t, r0 as int, c0 as int, r2, c2) by {
                            if matching_at(t, r0 as int, c0 as int, r2, c2) {
                                assert(depth_backward(t, cur, target, r0 as int, c0 as int, r2, c2) > 0);
                            }
                        }
                        break;
                    }
                    row = row - 1;
                    col = self.lines[row].len();
                    assert(t[row as int] == self.lines@[row as int]@);
                    proof {
                        if row + 1 < r0 {
                            lemma_rows_front(t, cur, target, row + 1, r0 as int);
                        }
                    }
                    continue;
                }
                col = col - 1;
                assert(t[row as int] == self.lines@[row as int]@);
                let ch = self.lines[row][col];
                proof {
                    if row == r0 {
                        lemma_span_front(t[r0 as int], cur, target, col as int, c0 as int);
                    } else {
                        lemma_span_front(t[row as int], cur, target, col as int, t[row as int].len() as int);
                    }
                }
                if ch == cur {
                    if depth == usize::MAX {
                        assert(depth_backward(t, cur, target, r0 as int, c0 as int, row as int, col as int) == depth + 1);
                        assert forall|r: int, c: int|
                            #[trigger] matching_at(t, r0 as int, c0 as int, r, c) implies !nesting_fits(
                            t,
                            r0 as int,
                            c0 as int,
                            r,
                            c,
                        ) by {
                            if r > row || (r == row && c > col) {
                                assert(depth_backward(t, cur, target, r0 as int, c0 as int, r, c) > 0);
                            } else {
                                assert(before_pos(t, r0 as int, c0 as int, row as int, col as int));
                            }
                        }
                        return;
                    }
                    depth = depth + 1;
                } else if ch == target {
                    depth = depth - 1;
                    if depth == 0 {
                        assert(depth_backward(t, cur, target, r0 as int, c0 as int, row as int, col as int) == 0);
                        assert(before_pos(t, r0 as int, c0 as int, row as int, col as int));
                        assert(matching_at(t, r0 as int, c0 as int, row as int, col as int));
                        assert(t == old(self).text());
                        assert(r0 == old(self).cursor_row && c0 == old(self).cursor_col);
                        self.cursor_row = row;
                        self.cursor_col = col;
                        assert(self.current_line() == t[row as int]);
                        return;
                    }
                }
                assert(depth_backward(t, cur, target, r0 as int, c0 as int, row as int, col as int) == depth);
            }
            return;
        }
        assert forall|r2: int, c2: int| !#[trigger] matching_at(t, r0 as int, c0 as int, r2, c2) by {
            if matching_at(t, r0 as int, c0 as int, r2, c2) {
                assert(depth_forward(t, cur, target, r0 as int, c0 as int, r2, c2) > 0);
            }
        }
    }
}

} // verus!
