use vstd::prelude::*;
use vstd::string::StringExecFns;
use crate::editor::{TextEditor, VimMode, min_nat};
use crate::buffer::count_message;
use crate::search::{matches_at, match_at, prefixed};
use crate::text::{chars_of, copy_chars, concat_chars, decimal, lines_of, split_lines};

verus! {

/// What the caller has to do after a command: the engine does no I/O itself.
#[derive(Debug, Clone, Copy, PartialEq, Eq)]
pub enum Request {
    Continue,
    Save,
    Quit,
    SaveAndQuit,
    Reload,
    /// The register was filled from a selection; the caller may copy
    /// `get_clipboard_text()` to the system clipboard.
    CopyRegister,
}

/// A parsed `s/old/new/flags` command.
#[derive(Debug)]
pub struct Substitution {
    /// `%` prefix: every line, not only the cursor's.
    pub all_lines: bool,
    pub pattern: Vec<char>,
    pub replacement: Vec<char>,
    /// `g` flag: every occurrence in a line, not only the first.
    pub every: bool,
}

/// Column `a` holds the first `/` of `s`.
pub open spec fn first_slash(s: Seq<char>, a: int) -> bool {
    &&& 0 <= a < s.len()
    &&& s[a] == '/'
    &&& forall|j: int| 0 <= j < a ==> s[j] != '/'
}

pub open spec fn no_slash(s: Seq<char>) -> bool {
    forall|j: int| 0 <= j < s.len() ==> s[j] != '/'
}

/// `s` with every occurrence of `p` replaced by `r`, scanning left to right,
/// as `str::replace` does (an empty `p` matches before every character and at the end).
pub open spec fn replace_all(s: Seq<char>, p: Seq<char>, r: Seq<char>) -> Seq<char>
    decreases s.len(),
{
    if p.len() == 0 {
        if s.len() == 0 {
            r
        } else {
            r + seq![s[0]] + replace_all(s.drop_first(), p, r)
        }
    } else if s.len() < p.len() {
        s
    } else if s.subrange(0, p.len() as int) == p {
        r + replace_all(s.subrange(p.len() as int, s.len() as int), p, r)
    } else if s.len() == 0 {
        s
    } else {
        seq![s[0]] + replace_all(s.drop_first(), p, r)
    }
}

/// How many occurrences `replace_all` replaces.
pub open spec fn count_all(s: Seq<char>, p: Seq<char>) -> nat
    decreases s.len(),
{
    if p.len() == 0 {
        if s.len() == 0 {
            1
        } else {
            1 + count_all(s.drop_first(), p)
        }
    } else if s.len() < p.len() {
        0
    } else if s.subrange(0, p.len() as int) == p {
        1 + count_all(s.subrange(p.len() as int, s.len() as int), p)
    } else if s.len() == 0 {
        0
    } else {
        count_all(s.drop_first(), p)
    }
}

/// `s` with its first occurrence of `p` replaced by `r`, as `str::replacen(p, r, 1)` does.
pub open spec fn replace_first(s: Seq<char>, p: Seq<char>, r: Seq<char>) -> Seq<char>
    decreases s.len(),
{
    if s.len() < p.len() {
        s
    } else if s.subrange(0, p.len() as int) == p {
        r + s.subrange(p.len() as int, s.len() as int)
    } else if s.len() == 0 {
        s
    } else {
        seq![s[0]] + replace_first(s.drop_first(), p, r)
    }
}

/// `p` occurs somewhere in `s`.
pub open spec fn occurs(s: Seq<char>, p: Seq<char>) -> bool {
    exists|i: int| matches_at(s, p, i)
}

/// One line after a substitution.
pub open spec fn substituted(s: Seq<char>, p: Seq<char>, r: Seq<char>, every: bool) -> Seq<char> {
    if every {
        replace_all(s, p, r)
    } else if occurs(s, p) {
        replace_first(s, p, r)
    } else {
        s
    }
}

/// The buffer after a substitution on every line, or on line `row` only.
pub open spec fn substitute_text(
    t: Seq<Seq<char>>,
    row: int,
    all: bool,
    p: Seq<char>,
    r: Seq<char>,
    every: bool,
) -> Seq<Seq<char>> {
    if all {
        Seq::new(t.len(), |i: int| substituted(t[i], p, r, every))
    } else {
        t.update(row, substituted(t[row], p, r, every))
    }
}

/// Replacements a substitution makes in one line.
pub open spec fn line_replacements(s: Seq<char>, p: Seq<char>, every: bool) -> nat {
    if every {
        count_all(s, p)
    } else if occurs(s, p) {
        1
    } else {
        0
    }
}

/// Replacements a substitution makes in the lines `t`.
pub open spec fn total_replacements(t: Seq<Seq<char>>, p: Seq<char>, every: bool) -> nat
    decreases t.len(),
{
    if t.len() == 0 {
        0
    } else {
        total_replacements(t.drop_last(), p, every) + line_replacements(t.last(), p, every)
    }
}

/// Sum that stops at the largest `usize`.
pub open spec fn capped(n: nat) -> nat {
    if n > usize::MAX {
        usize::MAX as nat
    } else {
        n
    }
}

/// Whether a run of characters spells a given text.
pub fn is_text(v: &Vec<char>, lit: &str) -> (r: bool)
    ensures
        r == (v@ == lit@),
{
    let w = chars_of(lit);
    if v.len() != w.len() {
        return false;
    }
    let mut i: usize = 0;
    while i < v.len()
        invariant
            v@.len() == w@.len(),
            w@ == lit@,
            i <= v@.len(),
            forall|j: int| 0 <= j < i ==> v@[j] == w@[j],
        decreases v@.len() - i,
    {
        if v[i] != w[i] {
            return false;
        }
        i = i + 1;
    }
    assert(v@ =~= w@);
    true
}

/// Whether a run of characters begins with a given text.
pub fn starts_with_text(v: &Vec<char>, lit: &str) -> (r: bool)
    ensures
        r == (lit@.len() <= v@.len() && v@.subrange(0, lit@.len() as int) == lit@),
{
    let w = chars_of(lit);
    if w.len() > v.len() {
        return false;
    }
    let head = copy_chars(v, 0, w.len());
    let mut i: usize = 0;
    while i < w.len()
        invariant
            head@.len() == w@.len(),
            head@ == v@.subrange(0, w@.len() as int),
            w@ == lit@,
            i <= w@.len(),
            forall|j: int| 0 <= j < i ==> head@[j] == w@[j],
        decreases w@.len() - i,
    {
        if head[i] != w[i] {
            return false;
        }
        i = i + 1;
    }
    assert(head@ =~= w@);
    true
}

/// Column of the first `/`, if there is one.
pub fn find_slash(s: &Vec<char>) -> (r: Option<usize>)
    ensures
        match r {
            Some(a) => first_slash(s@, a as int),
            None => no_slash(s@),
        },
{
    let mut i: usize = 0;
    while i < s.len()
        invariant
            i <= s@.len(),
            forall|j: int| 0 <= j < i ==> s@[j] != '/',
        decreases s@.len() - i,
    {
        if s[i] == '/' {
            return Some(i);
        }
        i = i + 1;
    }
    None
}

/// The parts of `old/new/flags`: `None` when there is no `/` after the pattern.
pub open spec fn substitution_parts(rest: Seq<char>, pattern: Seq<char>, replacement: Seq<char>, flags: Seq<char>) -> bool {
    exists|a: int|
        {
            &&& first_slash(rest, a)
            &&& pattern == rest.subrange(0, a)
            &&& ({
                let after = rest.subrange(a + 1, rest.len() as int);
                ||| exists|b: int|
                    first_slash(after, b) && replacement == after.subrange(0, b) && flags
                        == after.subrange(b + 1, after.len() as int)
                ||| no_slash(after) && replacement == after && flags.len() == 0
            })
        }
}

/// Parse the text after `s/` or `%s/`.
pub fn parse_substitution(rest: &Vec<char>, all_lines: bool) -> (r: Option<Substitution>)
    ensures
        match r {
            None => no_slash(rest@),
            Some(sub) => {
                &&& sub.all_lines == all_lines
                &&& exists|flags: Seq<char>|
                    substitution_parts(rest@, sub.pattern@, sub.replacement@, flags) && sub.every
                        == flags.contains('g')
            },
        },
{
    let a = match find_slash(rest) {
        Some(a) => a,
        None => {
            return None;
        },
    };
    let n = rest.len();
    assert(a < n);
    let pattern = copy_chars(rest, 0, a);
    let after = copy_chars(rest, a + 1, rest.len());
    let (replacement, flags) = match find_slash(&after) {
        Some(b) => {
            let m = after.len();
            assert(b < m);
            let rp = copy_chars(&after, 0, b);
            let fl = copy_chars(&after, b + 1, after.len());
            assert(first_slash(after@, b as int) && rp@ == after@.subrange(0, b as int) && fl@
                == after@.subrange(b + 1, after@.len() as int));
            (rp, fl)
        },
        None => {
            assert(after@.subrange(0, after@.len() as int) =~= after@);
            let v: Vec<char> = Vec::new();
            assert(v@.len() == 0);
            (copy_chars(&after, 0, after.len()), v)
        },
    };
    let mut every = false;
    let mut i: usize = 0;
    while i < flags.len()
        invariant
            i <= flags@.len(),
            every == (exists|j: int| 0 <= j < i && flags@[j] == 'g'),
        decreases flags@.len() - i,
    {
        if flags[i] == 'g' {
            every = true;
        }
        i = i + 1;
    }
    assert(first_slash(rest@, a as int));
    assert(substitution_parts(rest@, pattern@, replacement@, flags@));
    assert(every == flags@.contains('g'));
    Some(Substitution { all_lines, pattern, replacement, every })
}

/// A line with every occurrence replaced, and how many were.
pub fn replace_all_in(s: &Vec<char>, p: &Vec<char>, r: &Vec<char>) -> (res: (Vec<char>, usize))
    ensures
        res.0@ == replace_all(s@, p@, r@),
        res.1 as nat == capped(count_all(s@, p@)),
{
    let mut out: Vec<char> = Vec::new();
    let mut n: usize = 0;
    let mut i: usize = 0;
    let ghost total = count_all(s@, p@);
    assert(s@.subrange(0, s@.len() as int) =~= s@);
    while i < s.len()
        invariant
            i <= s@.len(),
            out@ + replace_all(s@.subrange(i as int, s@.len() as int), p@, r@) == replace_all(
                s@,
                p@,
                r@,
            ),
            capped((n + count_all(s@.subrange(i as int, s@.len() as int), p@)) as nat) == capped(total),
            n <= usize::MAX,
        decreases s@.len() - i,
    {
        let ghost rest = s@.subrange(i as int, s@.len() as int);
        if p.len() == 0 {
            assert(rest.drop_first() =~= s@.subrange(i + 1, s@.len() as int));
            assert(rest[0] == s@[i as int]);
            let ghost before = out@;
            out = concat_chars(&out, r);
            out.push(s[i]);
            assert(out@ =~= before + r@ + seq![s@[i as int]]);
            assert(before + replace_all(rest, p@, r@) =~= out@ + replace_all(
                rest.drop_first(),
                p@,
                r@,
            ));
            n = if n < usize::MAX {
                n + 1
            } else {
                n
            };
            i = i + 1;
        } else if p.len() <= s.len() - i && match_at(s, p, i) {
            assert(rest.subrange(0, p@.len() as int) =~= s@.subrange(i as int, i + p@.len()));
            assert(rest.subrange(p@.len() as int, rest.len() as int) =~= s@.subrange(
                i + p@.len(),
                s@.len() as int,
            ));
            let ghost before = out@;
            out = concat_chars(&out, r);
            assert(before + replace_all(rest, p@, r@) =~= out@ + replace_all(
                rest.subrange(p@.len() as int, rest.len() as int),
                p@,
                r@,
            ));
            n = if n < usize::MAX {
                n + 1
            } else {
                n
            };
            i = i + p.len();
        } else {
            if p.len() <= s.len() - i {
                assert(rest.subrange(0, p@.len() as int) != p@) by {
                    assert(rest.subrange(0, p@.len() as int) =~= s@.subrange(i as int, i + p@.len()));
                }
            }
            if p.len() > s.len() - i {
                assert(replace_all(rest, p@, r@) == rest);
                assert(count_all(rest, p@) == 0);
                let tail = copy_chars(s, i, s.len());
                let ghost before = out@;
                out = concat_chars(&out, &tail);
                assert(out@ =~= before + replace_all(rest, p@, r@));
                i = s.len();
                assert(s@.subrange(i as int, s@.len() as int) =~= Seq::<char>::empty());
            } else {
                assert(rest.drop_first() =~= s@.subrange(i + 1, s@.len() as int));
                let ghost before = out@;
                out.push(s[i]);
                assert(before + replace_all(rest, p@, r@) =~= out@ + replace_all(
                    rest.drop_first(),
                    p@,
                    r@,
                ));
                i = i + 1;
            }
        }
    }
    assert(s@.subrange(i as int, s@.len() as int) =~= Seq::<char>::empty());
    if p.len() == 0 {
        out = concat_chars(&out, r);
        n = if n < usize::MAX {
            n + 1
        } else {
            n
        };
    }
    (out, n)
}

} // verus!

verus! {

proof fn lemma_replace_first_at(s: Seq<char>, p: Seq<char>, r: Seq<char>, i: int)
    requires
        p.len() > 0,
        matches_at(s, p, i),
        forall|j: int| 0 <= j < i ==> !matches_at(s, p, j),
    ensures
        replace_first(s, p, r) == s.subrange(0, i) + r + s.subrange(i + p.len(), s.len() as int),
    decreases i,
{
    if i == 0 {
        assert(s.subrange(0, 0) + r =~= r);
    } else {
        assert(!matches_at(s, p, 0));
        let t = s.drop_first();
        assert(t.subrange(i - 1, i - 1 + p.len()) =~= s.subrange(i, i + p.len()));
        assert forall|j: int| 0 <= j < i - 1 implies !matches_at(t, p, j) by {
            assert(t.subrange(j, j + p.len()) =~= s.subrange(j + 1, j + 1 + p.len()));
            assert(!matches_at(s, p, j + 1));
        }
        lemma_replace_first_at(t, p, r, i - 1);
        assert(seq![s[0]] + (t.subrange(0, i - 1) + r + t.subrange(i - 1 + p.len(), t.len() as int))
            =~= s.subrange(0, i) + r + s.subrange(i + p.len(), s.len() as int));
    }
}

/// A line with its first occurrence replaced, and whether there was one.
pub fn replace_first_in(s: &Vec<char>, p: &Vec<char>, r: &Vec<char>) -> (res: (Vec<char>, bool))
    ensures
        res.1 == occurs(s@, p@),
        res.0@ == (if res.1 {
            replace_first(s@, p@, r@)
        } else {
            s@
        }),
{
    if p.len() == 0 {
        assert(matches_at(s@, p@, 0)) by {
            assert(s@.subrange(0, 0) =~= p@);
        }
        assert(s@.subrange(0, 0) =~= p@);
        let out = concat_chars(r, s);
        return (out, true);
    }
    match crate::search::find_from(s, p, 0, s.len()) {
        Some(i) => {
            proof {
                lemma_replace_first_at(s@, p@, r@, i as int);
            }
            let a = copy_chars(s, 0, i);
            let b = copy_chars(s, i + p.len(), s.len());
            let ar = concat_chars(&a, r);
            let out = concat_chars(&ar, &b);
            (out, true)
        },
        None => {
            assert(!occurs(s@, p@));
            let out = copy_chars(s, 0, s.len());
            assert(s@.subrange(0, s@.len() as int) =~= s@);
            (out, false)
        },
    }
}

/// A line after a substitution, and how many replacements it took.
pub fn substitute_line(s: &Vec<char>, sub: &Substitution) -> (res: (Vec<char>, usize))
    ensures
        res.0@ == substituted(s@, sub.pattern@, sub.replacement@, sub.every),
        res.1 as nat == capped(line_replacements(s@, sub.pattern@, sub.every)),
{
    if sub.every {
        replace_all_in(s, &sub.pattern, &sub.replacement)
    } else {
        let (line, found) = replace_first_in(s, &sub.pattern, &sub.replacement);
        (line, if found {
            1
        } else {
            0
        })
    }
}

fn add_capped(a: usize, b: usize) -> (r: usize)
    ensures
        r as nat == capped((a + b) as nat),
{
    if b <= usize::MAX - a {
        a + b
    } else {
        usize::MAX
    }
}

impl TextEditor {
    /// Run a substitution on the cursor's line, or on every line for `%`,
    /// report the count of replacements (or that the pattern was not found),
    /// and return to Normal mode.
    pub fn execute_substitute(&mut self, sub: &Substitution)
        requires
            old(self).wf(),
        ensures
            final(self).wf(),
            final(self).mode == VimMode::Normal,
            ({
                let t = old(self).text();
                let p = sub.pattern@;
                let r = sub.replacement@;
                let row = old(self).cursor_row as int;
                let total = if sub.all_lines {
                    total_replacements(t, p, sub.every)
                } else {
                    line_replacements(t[row], p, sub.every)
                };
                &&& final(self).text() == substitute_text(t, row, sub.all_lines, p, r, sub.every)
                &&& total > 0 ==> final(self).status_message@ == decimal(capped(total))
                    + " substitution(s) made"@ && final(self).modified && final(self).recorded(
                    old(self),
                )
                &&& total == 0 ==> final(self).status_message@ == "Pattern not found: "@ + p
                    && final(self).modified == old(self).modified && final(self).undo_stack
                    == old(self).undo_stack && final(self).redo_stack == old(self).redo_stack
                &&& final(self).cursor_row == old(self).cursor_row
            }),
    {
        let ghost t = self.text();
        let row = self.cursor_row;
        let mut total: usize = 0;
        if sub.all_lines {
            let n = self.lines.len();
            let mut fresh: Vec<Vec<char>> = Vec::new();
            let mut k: usize = 0;
            while k < n
                invariant
                    n == t.len(),
                    t == self.text(),
                    k <= n,
                    fresh@.len() == k,
                    forall|i: int|
                        0 <= i < k ==> #[trigger] fresh@[i]@ == substituted(
                            t[i],
                            sub.pattern@,
                            sub.replacement@,
                            sub.every,
                        ),
                    total as nat == capped(total_replacements(t.take(k as int), sub.pattern@, sub.every)),
                decreases n - k,
            {
                assert(self.text()[k as int] == t[k as int]);
                let (line, c) = substitute_line(&self.lines[k], sub);
                fresh.push(line);
                total = add_capped(total, c);
                assert(t.take(k + 1).drop_last() =~= t.take(k as int));
                k = k + 1;
            }
            assert(t.take(n as int) =~= t);
            if total > 0 {
                self.save_undo();
            }
            self.lines = fresh;
            assert(self.text() =~= substitute_text(
                t,
                row as int,
                true,
                sub.pattern@,
                sub.replacement@,
                sub.every,
            ));
        } else {
            let (line, c) = substitute_line(&self.lines[row], sub);
            total = c;
            if total > 0 {
                self.save_undo();
            }
            self.put_line(row, line);
        }
        if total > 0 {
            self.modified = true;
        }
        self.enter_normal_mode();
        if total > 0 {
            self.status_message = count_message(total, " substitution(s) made");
        } else {
            self.status_message = prefixed("Pattern not found: ", &sub.pattern);
        }
    }
}

} // verus!

verus! {

pub open spec fn is_digit(c: char) -> bool {
    '0' <= c <= '9'
}

pub open spec fn all_digits(s: Seq<char>) -> bool {
    s.len() > 0 && forall|j: int| 0 <= j < s.len() ==> is_digit(#[trigger] s[j])
}

/// The value of a run of decimal digits.
pub open spec fn digits_value(s: Seq<char>) -> nat
    decreases s.len(),
{
    if s.len() == 0 {
        0
    } else {
        digits_value(s.drop_last()) * 10 + ((s.last() as u32) - ('0' as u32)) as nat
    }
}

/// A command that is a line number: all digits, small enough for a `usize`.
pub open spec fn line_number(s: Seq<char>) -> Option<nat> {
    if all_digits(s) && digits_value(s) <= usize::MAX {
        Some(digits_value(s))
    } else {
        None
    }
}

/// Parse a run of decimal digits into a `usize`.
pub fn parse_line_number(s: &Vec<char>) -> (r: Option<usize>)
    ensures
        match r {
            Some(n) => line_number(s@) == Some(n as nat),
            None => line_number(s@) is None,
        },
{
    if s.len() == 0 {
        return None;
    }
    let mut v: usize = 0;
    let mut i: usize = 0;
    while i < s.len()
        invariant
            i <= s@.len(),
            forall|j: int| 0 <= j < i ==> is_digit(#[trigger] s@[j]),
            v as nat == digits_value(s@.take(i as int)),
        decreases s@.len() - i,
    {
        let c = s[i];
        assert(s@.take(i + 1).drop_last() =~= s@.take(i as int));
        if !('0' <= c && c <= '9') {
            return None;
        }
        let d = (c as u32 - '0' as u32) as usize;
        if v > (usize::MAX - d) / 10 {
            proof {
                lemma_digits_grow(s@, i as int);
            }
            return None;
        }
        v = v * 10 + d;
        i = i + 1;
    }
    assert(s@.take(s@.len() as int) =~= s@);
    Some(v)
}

proof fn lemma_digits_prefix_le(s: Seq<char>, i: int)
    requires
        0 <= i <= s.len(),
        all_digits(s),
    ensures
        digits_value(s.take(i)) <= digits_value(s),
    decreases s.len() - i,
{
    if i < s.len() {
        lemma_digits_prefix_le(s, i + 1);
        assert(s.take(i + 1).drop_last() =~= s.take(i));
        assert(is_digit(s[i]));
        assert(s.take(i + 1).last() == s[i]);
        let v = digits_value(s.take(i));
        assert(v * 10 >= v) by (nonlinear_arith);
        assert(digits_value(s.take(i + 1)) == v * 10 + ((s[i] as u32) - ('0' as u32)) as nat);
    } else {
        assert(s.take(i) =~= s);
    }
}

proof fn lemma_digits_grow(s: Seq<char>, i: int)
    requires
        0 <= i < s.len(),
        is_digit(s[i]),
        digits_value(s.take(i)) * 10 + ((s[i] as u32) - ('0' as u32)) as nat > usize::MAX,
    ensures
        line_number(s) is None,
{
    assert(s.take(i + 1).drop_last() =~= s.take(i));
    if all_digits(s) {
        lemma_digits_prefix_le(s, i + 1);
    }
}

/// The command words differ from one another.
proof fn lemma_commands_distinct()
    ensures
        "q"@ != "w"@,
        "q"@ != "x"@,
        "q"@ != "$"@,
        "w"@ != "x"@,
        "w"@ != "$"@,
        "x"@ != "$"@,
        "q!"@ != "wq"@,
        "q!"@ != "x!"@,
        "q!"@ != "e!"@,
        "wq"@ != "x!"@,
        "wq"@ != "e!"@,
        "x!"@ != "e!"@,
        "wq!"@ != "noh"@,
        "nohlsearch"@ != "set number"@,
{
    reveal_strlit("q");
    reveal_strlit("w");
    reveal_strlit("x");
    reveal_strlit("$");
    reveal_strlit("q!");
    reveal_strlit("wq");
    reveal_strlit("x!");
    reveal_strlit("e!");
    reveal_strlit("wq!");
    reveal_strlit("noh");
    reveal_strlit("nohlsearch");
    reveal_strlit("set nu");
    reveal_strlit("set number");
    assert("q"@[0] != "w"@[0]);
    assert("q"@[0] != "x"@[0]);
    assert("q"@[0] != "$"@[0]);
    assert("w"@[0] != "x"@[0]);
    assert("w"@[0] != "$"@[0]);
    assert("x"@[0] != "$"@[0]);
    assert("q!"@[0] != "wq"@[0]);
    assert("q!"@[0] != "x!"@[0]);
    assert("q!"@[0] != "e!"@[0]);
    assert("wq"@[0] != "x!"@[0]);
    assert("wq"@[0] != "e!"@[0]);
    assert("x!"@[0] != "e!"@[0]);
    assert("wq!"@[0] != "noh"@[0]);
    assert("nohlsearch"@[0] != "set number"@[0]);
}

/// What follows `s/` or `%s/` in a substitution command.
pub open spec fn substitution_rest(cmd: Seq<char>) -> Seq<char> {
    cmd.subrange(if cmd[0] == '%' {
        3
    } else {
        2
    }, cmd.len() as int)
}

/// A command that is neither a line number nor a substitution.
pub open spec fn plain_command(cmd: Seq<char>) -> bool {
    line_number(cmd) is None && !is_substitution(cmd)
}

/// The commands with a meaning besides line numbers and substitutions.
pub open spec fn known_command(cmd: Seq<char>) -> bool {
    ||| cmd == "q"@
    ||| cmd == "q!"@
    ||| cmd == "w"@
    ||| cmd == "wq"@
    ||| cmd == "x"@
    ||| cmd == "wq!"@
    ||| cmd == "x!"@
    ||| cmd == "e!"@
    ||| cmd == "$"@
    ||| cmd == "noh"@
    ||| cmd == "nohlsearch"@
    ||| cmd == "set nu"@
    ||| cmd == "set number"@
}

/// A substitution command: it begins with `s/` or `%s/`.
pub open spec fn is_substitution(cmd: Seq<char>) -> bool {
    cmd.len() >= 2 && (cmd.subrange(0, 2) == "s/"@ || (cmd.len() >= 3 && cmd.subrange(0, 3)
        == "%s/"@))
}

impl TextEditor {
    /// Run the command typed on the command line and return to Normal mode.
    /// Saving, quitting and reloading are asked of the caller through the
    /// returned request.
    pub fn execute_command(&mut self) -> (req: Request)
        requires
            old(self).wf(),
        ensures
            final(self).wf(),
            final(self).mode == VimMode::Normal,
            line_number(old(self).command_buffer@) is Some ==> {
                let n = line_number(old(self).command_buffer@)->0;
                &&& req == Request::Continue
                &&& final(self).text() == old(self).text()
                &&& final(self).cursor_row == (if n == 0 {
                    0
                } else {
                    min_nat((n - 1) as nat, (old(self).text().len() - 1) as nat)
                })
                &&& final(self).cursor_col == 0
            },
            line_number(old(self).command_buffer@) is None && is_substitution(
                old(self).command_buffer@,
            ) ==> req == Request::Continue,
            line_number(old(self).command_buffer@) is None && is_substitution(
                old(self).command_buffer@,
            ) && no_slash(substitution_rest(old(self).command_buffer@)) ==> final(self).text()
                == old(self).text() && final(self).status_message@ == "Invalid substitute command"@,
            line_number(old(self).command_buffer@) is None && is_substitution(
                old(self).command_buffer@,
            ) && !no_slash(substitution_rest(old(self).command_buffer@)) ==> exists|
                p: Seq<char>,
                r: Seq<char>,
                flags: Seq<char>,
            |
                #[trigger] substitution_parts(substitution_rest(old(self).command_buffer@), p, r, flags)
                    && final(self).text() == substitute_text(
                    old(self).text(),
                    old(self).cursor_row as int,
                    old(self).command_buffer@[0] == '%',
                    p,
                    r,
                    flags.contains('g'),
                ),
            plain_command(old(self).command_buffer@) ==> final(self).text() == old(self).text()
                && final(self).modified == old(self).modified,
            line_number(old(self).command_buffer@) is Some ==> final(self).modified
                == old(self).modified,
            plain_command(old(self).command_buffer@) && old(self).command_buffer@ == "q"@
                ==> if old(self).modified {
                &&& req == Request::Continue
                &&& final(self).status_message@ == "No write since last change (use :q! to force)"@
            } else {
                req == Request::Quit
            },
            plain_command(old(self).command_buffer@) && old(self).command_buffer@ == "q!"@ ==> req
                == Request::Quit,
            plain_command(old(self).command_buffer@) && old(self).command_buffer@ == "w"@ ==> req
                == Request::Save,
            plain_command(old(self).command_buffer@) && (old(self).command_buffer@ == "wq"@
                || old(self).command_buffer@ == "x"@ || old(self).command_buffer@ == "wq!"@
                || old(self).command_buffer@ == "x!"@) ==> req == Request::SaveAndQuit,
            plain_command(old(self).command_buffer@) && old(self).command_buffer@ == "e!"@ ==> req
                == Request::Reload,
            plain_command(old(self).command_buffer@) && old(self).command_buffer@ == "$"@ ==> req
                == Request::Continue && final(self).cursor_row == old(self).lines@.len() - 1
                && final(self).cursor_col == 0,
            plain_command(old(self).command_buffer@) && (old(self).command_buffer@ == "noh"@
                || old(self).command_buffer@ == "nohlsearch"@) ==> req == Request::Continue
                && final(self).search_pattern@.len() == 0 && final(self).status_message@
                == "Search highlighting cleared"@,
            plain_command(old(self).command_buffer@) && (old(self).command_buffer@ == "set nu"@
                || old(self).command_buffer@ == "set number"@) ==> req == Request::Continue
                && final(self).status_message@ == "Line numbers are always shown"@,
            plain_command(old(self).command_buffer@) && !known_command(old(self).command_buffer@)
                ==> req == Request::Continue && final(self).status_message@ == "Unknown command: "@
                + old(self).command_buffer@,
    {
        proof {
            lemma_commands_distinct();
            reveal_strlit("%s/");
            reveal_strlit("s/");
            reveal_strlit("q");
            reveal_strlit("q!");
            reveal_strlit("w");
            reveal_strlit("wq");
            reveal_strlit("x");
            reveal_strlit("wq!");
            reveal_strlit("x!");
            reveal_strlit("e!");
            reveal_strlit("$");
            reveal_strlit("noh");
            reveal_strlit("nohlsearch");
            reveal_strlit("set nu");
            reveal_strlit("set number");
        }
        let cmd = copy_chars(&self.command_buffer, 0, self.command_buffer.len());
        assert(self.command_buffer@.subrange(0, self.command_buffer@.len() as int)
            =~= self.command_buffer@);
        self.enter_normal_mode();
        match parse_line_number(&cmd) {
            Some(n) => {
                if n == 0 {
                    self.move_to_first_line();
                } else {
                    self.move_to_line(n);
                }
                assert(line_number(old(self).command_buffer@) == Some(n as nat));
                assert(self.text() == old(self).text());
                assert(self.cursor_col == 0);
                assert(self.cursor_row == (if n == 0 {
                    0
                } else {
                    min_nat((n - 1) as nat, (old(self).text().len() - 1) as nat)
                }));
                return Request::Continue;
            },
            None => {},
        }
        let sub_all = starts_with_text(&cmd, "%s/");
        let sub_one = starts_with_text(&cmd, "s/");
        if sub_all || sub_one {
            proof {
                reveal_strlit("%s/");
                reveal_strlit("s/");
            }
            let from: usize = if sub_all {
                3
            } else {
                2
            };
            let rest = copy_chars(&cmd, from, cmd.len());
            let ghost t = self.text();
            let ghost row = self.cursor_row;
            assert(cmd@[0] == '%' <==> sub_all);
            assert(rest@ == old(self).command_buffer@.subrange(if old(self).command_buffer@[0] == '%' { 3 } else { 2 }, old(self).command_buffer@.len() as int));
            match parse_substitution(&rest, sub_all) {
                Some(sub) => {
                    let ghost flags = choose|f: Seq<char>|
                        substitution_parts(rest@, sub.pattern@, sub.replacement@, f) && sub.every
                            == f.contains('g');
                    self.execute_substitute(&sub);
                    assert(substitution_parts(rest@, sub.pattern@, sub.replacement@, flags));
                    assert(cmd@[0] == '%' <==> sub_all);
                    let ghost a = choose|a: int| first_slash(rest@, a);
                    assert(rest@[a] == '/');
                    assert(!no_slash(rest@));
                    let ghost every = flags.contains('g');
                    assert(sub.every == every);
                    assert(sub.all_lines == sub_all);
                    assert(self.text() == substitute_text(t, row as int, sub_all, sub.pattern@, sub.replacement@, every));
                    let ghost ocmd = old(self).command_buffer@;
                    let ghost all = ocmd[0] == '%';
                    assert(all == sub_all);
                    assert(rest@ == ocmd.subrange(if all { 3 } else { 2 }, ocmd.len() as int));
                    assert(t == old(self).text());
                    assert(row == old(self).cursor_row);
                    assert(substitution_parts(rest@, sub.pattern@, sub.replacement@, flags)
                        && self.text() == substitute_text(t, row as int, all, sub.pattern@, sub.replacement@, flags.contains('g')));

                },
                None => {
                    self.status_message = String::from_str("Invalid substitute command");
                },
            }
            return Request::Continue;
        }
        if is_text(&cmd, "q") {
            if self.modified {
                self.status_message = String::from_str(
                    "No write since last change (use :q! to force)",
                );
                return Request::Continue;
            }
            return Request::Quit;
        }
        if is_text(&cmd, "q!") {
            assert(old(self).command_buffer@ == "q!"@);
            assert(old(self).command_buffer@ != "q"@);
            assert(self.text() == old(self).text());
            return Request::Quit;
        }
        if is_text(&cmd, "w") {
            return Request::Save;
        }
        if is_text(&cmd, "wq") || is_text(&cmd, "x") || is_text(&cmd, "wq!") || is_text(&cmd, "x!") {
            return Request::SaveAndQuit;
        }
        if is_text(&cmd, "e!") {
            return Request::Reload;
        }
        if is_text(&cmd, "$") {
            self.move_to_last_line();
            assert(cmd@ == "$"@);
            assert(cmd@ != "q"@ && cmd@ != "q!"@ && cmd@ != "w"@ && cmd@ != "e!"@);
            assert(self.cursor_row == old(self).text().len() - 1);
            return Request::Continue;
        }
        if is_text(&cmd, "noh") || is_text(&cmd, "nohlsearch") {
            self.search_pattern = Vec::new();
            self.status_message = String::from_str("Search highlighting cleared");
            return Request::Continue;
        }
        if is_text(&cmd, "set nu") || is_text(&cmd, "set number") {
            self.status_message = String::from_str("Line numbers are always shown");
            return Request::Continue;
        }
        self.status_message = prefixed("Unknown command: ", &cmd);
        Request::Continue
    }

    /// Record how a save that a command asked for went: success clears the
    /// modified flag; a failure reports the caller's message.
    pub fn finish_save(&mut self, result: Result<(), String>)
        requires
            old(self).wf(),
        ensures
            final(self).wf(),
            final(self).text() == old(self).text(),
            match result {
                Ok(_) => !final(self).modified && final(self).status_message@ == "File saved"@,
                Err(msg) => final(self).modified == old(self).modified
                    && final(self).status_message@ == "Error: "@ + msg@,
            },
    {
        match result {
            Ok(_) => {
                self.modified = false;
                self.status_message = String::from_str("File saved");
            },
            Err(msg) => {
                let mut s = String::from_str("Error: ");
                s.append(msg.as_str());
                self.status_message = s;
            },
        }
    }

    /// Replace the buffer with freshly read text (`:e!`), dropping the
    /// history; a failure to read leaves everything but the status as it was.
    pub fn finish_reload(&mut self, result: Result<String, String>)
        requires
            old(self).wf(),
        ensures
            final(self).wf(),
            final(self).mode == VimMode::Normal,
            match result {
                Ok(content) => {
                    &&& final(self).text() == (if lines_of(content@).len() == 0 {
                        seq![Seq::<char>::empty()]
                    } else {
                        lines_of(content@)
                    })
                    &&& final(self).cursor_row == 0
                    &&& final(self).cursor_col == 0
                    &&& !final(self).modified
                    &&& final(self).undo_stack@.len() == 0
                    &&& final(self).redo_stack@.len() == 0
                    &&& final(self).status_message@ == "File reloaded"@
                },
                Err(msg) => {
                    &&& final(self).text() == old(self).text()
                    &&& final(self).status_message@ == "Error reloading file: "@ + msg@
                },
            },
    {
        self.enter_normal_mode();
        match result {
            Ok(content) => {
                let chars = chars_of(content.as_str());
                let mut lines = split_lines(&chars);
                if lines.len() == 0 {
                    lines.push(Vec::new());
                }
                self.lines = lines;
                self.cursor_row = 0;
                self.cursor_col = 0;
                self.modified = false;
                self.undo_stack = Vec::new();
                self.redo_stack = Vec::new();
                self.status_message = String::from_str("File reloaded");
                assert(self.text() =~= (if lines_of(content@).len() == 0 {
                    seq![Seq::<char>::empty()]
                } else {
                    lines_of(content@)
                }));
            },
            Err(msg) => {
                let mut s = String::from_str("Error reloading file: ");
                s.append(msg.as_str());
                self.status_message = s;
            },
        }
    }
}

} // verus!
