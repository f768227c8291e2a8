use vstd::prelude::*;
use vstd::string::StringExecFns;
use crate::editor::{TextEditor, view_lines};
use crate::text::{decimal, decimal_chars, string_of, copy_chars, concat_chars};

verus! {

/// `n` in decimal followed by a text.
pub fn count_message(n: usize, suffix: &str) -> (r: String)
    ensures
        r@ == decimal(n as nat) + suffix@,
{
    let digits = decimal_chars(n);
    let mut s = string_of(digits.as_slice());
    s.append(suffix);
    s
}

/// A register of one line.
pub fn one_line(l: Vec<char>) -> (r: Vec<Vec<char>>)
    ensures
        view_lines(r@) == seq![l@],
{
    let ghost lv = l@;
    let mut r: Vec<Vec<char>> = Vec::new();
    r.push(l);
    assert(view_lines(r@) =~= seq![lv]);
    r
}

/// Copies of the lines `from..to` of a buffer.
pub fn copy_range(ls: &Vec<Vec<char>>, from: usize, to: usize) -> (r: Vec<Vec<char>>)
    requires
        from <= to <= ls@.len(),
    ensures
        view_lines(r@) == view_lines(ls@).subrange(from as int, to as int),
{
    let mut out: Vec<Vec<char>> = Vec::new();
    let mut i: usize = from;
    while i < to
        invariant
            from <= i <= to <= ls@.len(),
            view_lines(out@) == view_lines(ls@).subrange(from as int, i as int),
        decreases to - i,
    {
        let l = copy_chars(&ls[i], 0, ls[i].len());
        assert(ls@[i as int]@.subrange(0, ls@[i as int]@.len() as int) =~= ls@[i as int]@);
        let ghost before = out@;
        out.push(l);
        assert(view_lines(out@) =~= view_lines(before).push(ls@[i as int]@));
        i = i + 1;
        assert(view_lines(ls@).subrange(from as int, i as int) =~= view_lines(ls@).subrange(
            from as int,
            i - 1,
        ).push(ls@[i - 1]@));
    }
    out
}

/// The characters of a line from column `from` on.
pub fn suffix_from(l: &Vec<char>, from: usize) -> (r: Vec<char>)
    requires
        from <= l@.len(),
    ensures
        r@ == l@.subrange(from as int, l@.len() as int),
{
    copy_chars(l, from, l.len())
}

/// The characters of a line before column `to`.
pub fn prefix_to(l: &Vec<char>, to: usize) -> (r: Vec<char>)
    requires
        to <= l@.len(),
    ensures
        r@ == l@.subrange(0, to as int),
{
    copy_chars(l, 0, to)
}

/// A line with the characters `from..to` taken out.
pub fn cut_out(l: &Vec<char>, from: usize, to: usize) -> (r: Vec<char>)
    requires
        from <= to <= l@.len(),
    ensures
        r@ == l@.subrange(0, from as int) + l@.subrange(to as int, l@.len() as int),
{
    let a = copy_chars(l, 0, from);
    let b = copy_chars(l, to, l.len());
    concat_chars(&a, &b)
}

/// A line with a run of characters put in at column `at`.
pub fn splice_in(l: &Vec<char>, at: usize, t: &[char]) -> (r: Vec<char>)
    requires
        at <= l@.len(),
    ensures
        r@ == l@.subrange(0, at as int) + t@ + l@.subrange(at as int, l@.len() as int),
{
    let a = copy_chars(l, 0, at);
    let b = copy_chars(l, at, l.len());
    let ab = concat_chars(&a, t);
    concat_chars(&ab, &b)
}

impl TextEditor {
    /// Replace line `row`.
    pub(crate) fn put_line(&mut self, row: usize, l: Vec<char>)
        requires
            row < old(self).lines@.len(),
        ensures
            final(self).lines@.len() == old(self).lines@.len(),
            final(self).text() == old(self).text().update(row as int, l@),
            *final(self) == (TextEditor { lines: final(self).lines, ..*old(self) }),
    {
        let ghost lv = l@;
        self.lines.set(row, l);
        assert(self.text() =~= old(self).text().update(row as int, lv));
    }

    /// Insert a line before line `row`.
    pub(crate) fn insert_line(&mut self, row: usize, l: Vec<char>)
        requires
            row <= old(self).lines@.len(),
        ensures
            final(self).lines@.len() == old(self).lines@.len() + 1,
            final(self).text() == old(self).text().insert(row as int, l@),
            *final(self) == (TextEditor { lines: final(self).lines, ..*old(self) }),
    {
        let ghost lv = l@;
        self.lines.insert(row, l);
        assert(self.text() =~= old(self).text().insert(row as int, lv));
    }

    /// Take line `row` out of the buffer.
    pub(crate) fn remove_line(&mut self, row: usize) -> (l: Vec<char>)
        requires
            row < old(self).lines@.len(),
        ensures
            l@ == old(self).text()[row as int],
            final(self).lines@.len() == old(self).lines@.len() - 1,
            final(self).text() == old(self).text().remove(row as int),
            *final(self) == (TextEditor { lines: final(self).lines, ..*old(self) }),
    {
        let l = self.lines.remove(row);
        assert(self.text() =~= old(self).text().remove(row as int));
        l
    }
}

} // verus!
