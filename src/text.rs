use vstd::prelude::*;
use vstd::string::StrSliceExecFns;

verus! {

/// What `char::is_whitespace` says of a character: the Unicode `White_Space`
/// property, a fixed set of 25 code points.
pub open spec fn whitespace_of(c: char) -> bool {
    let v = c as u32;
    ||| 0x09 <= v <= 0x0D
    ||| v == 0x20
    ||| v == 0x85
    ||| v == 0xA0
    ||| v == 0x1680
    ||| 0x2000 <= v <= 0x200A
    ||| v == 0x2028
    ||| v == 0x2029
    ||| v == 0x202F
    ||| v == 0x205F
    ||| v == 0x3000
}

/// What `char::is_alphanumeric` says of a character.
pub uninterp spec fn alphanumeric_of(c: char) -> bool;

/// What `char::is_lowercase` says of a character.
pub uninterp spec fn lowercase_of(c: char) -> bool;

/// The first character of `char::to_uppercase`, or the character itself.
pub uninterp spec fn upper_of(c: char) -> char;

/// The first character of `char::to_lowercase`, or the character itself.
pub uninterp spec fn lower_of(c: char) -> char;

/// A word character: alphanumeric or underscore.
pub open spec fn word_char(c: char) -> bool {
    alphanumeric_of(c) || c == '_'
}

/// Case toggle of one character: lower case goes up, anything else goes down.
pub open spec fn toggled(c: char) -> char {
    if lowercase_of(c) {
        upper_of(c)
    } else {
        lower_of(c)
    }
}

/// Whether a character is whitespace, as `char::is_whitespace` says.
pub fn is_space(c: char) -> (r: bool)
    ensures
        r == whitespace_of(c),
{
    let v = c as u32;
    (0x09 <= v && v <= 0x0D) || v == 0x20 || v == 0x85 || v == 0xA0 || v == 0x1680 || (0x2000
        <= v && v <= 0x200A) || v == 0x2028 || v == 0x2029 || v == 0x202F || v == 0x205F || v
        == 0x3000
}

/// Relies on `char::is_alphanumeric`.
#[verifier::external_body]
fn is_alphanumeric(c: char) -> (r: bool)
    ensures
        r == alphanumeric_of(c),
{
    c.is_alphanumeric()
}

/// Relies on `char::is_lowercase`.
#[verifier::external_body]
fn is_lowercase(c: char) -> (r: bool)
    ensures
        r == lowercase_of(c),
{
    c.is_lowercase()
}

/// Relies on `char::to_uppercase`: its first character, or `c` when it yields none.
#[verifier::external_body]
pub(crate) fn to_upper(c: char) -> (r: char)
    ensures
        r == upper_of(c),
{
    c.to_uppercase().next().unwrap_or(c)
}

/// Relies on `char::to_lowercase`: its first character, or `c` when it yields none.
#[verifier::external_body]
pub(crate) fn to_lower(c: char) -> (r: char)
    ensures
        r == lower_of(c),
{
    c.to_lowercase().next().unwrap_or(c)
}

/// Relies on `String: FromIterator<&char>`: the string holds the characters in order.
#[verifier::external_body]
pub(crate) fn string_of(v: &[char]) -> (r: String)
    ensures
        r@ == v@,
{
    v.iter().collect()
}

/// Check if a character is a word character (alphanumeric or underscore).
pub fn is_word_char(c: char) -> (r: bool)
    ensures
        r == word_char(c),
{
    is_alphanumeric(c) || c == '_'
}

/// Toggle the case of one character.
pub fn toggle_char(c: char) -> (r: char)
    ensures
        r == toggled(c),
{
    if is_lowercase(c) {
        to_upper(c)
    } else {
        to_lower(c)
    }
}

/// Number of characters in a string.
pub fn char_count_pub(s: &str) -> (n: usize)
    ensures
        n == s@.len(),
{
    s.unicode_len()
}

/// The characters of a string, in order.
pub fn chars_of(s: &str) -> (r: Vec<char>)
    ensures
        r@ == s@,
{
    let mut v: Vec<char> = Vec::new();
    for c in it: s.chars()
        invariant
            v@ == it.seq().take(it.index() as int),
    {
        v.push(c);
    }
    v
}

/// A copy of a run of characters.
pub fn copy_chars(s: &[char], from: usize, to: usize) -> (r: Vec<char>)
    requires
        from <= to <= s@.len(),
    ensures
        r@ == s@.subrange(from as int, to as int),
{
    let mut v: Vec<char> = Vec::new();
    let mut i: usize = from;
    while i < to
        invariant
            from <= i <= to <= s@.len(),
            v@ == s@.subrange(from as int, i as int),
        decreases to - i,
    {
        v.push(s[i]);
        i = i + 1;
    }
    v
}

/// Two runs of characters, one after the other.
pub fn concat_chars(a: &[char], b: &[char]) -> (r: Vec<char>)
    ensures
        r@ == a@ + b@,
{
    let mut v = copy_chars(a, 0, a.len());
    let mut i: usize = 0;
    while i < b.len()
        invariant
            i <= b@.len(),
            v@ == a@ + b@.subrange(0, i as int),
        decreases b@.len() - i,
    {
        v.push(b[i]);
        i = i + 1;
    }
    assert(b@.subrange(0, b@.len() as int) =~= b@);
    v
}

/// Pieces of a text between line feeds; there is always at least one piece.
pub open spec fn pieces(s: Seq<char>) -> Seq<Seq<char>>
    decreases s.len(),
{
    if s.len() == 0 {
        seq![Seq::<char>::empty()]
    } else {
        let p = pieces(s.drop_last());
        if s.last() == '\n' {
            p.push(Seq::<char>::empty())
        } else {
            p.update(p.len() - 1, p.last().push(s.last()))
        }
    }
}

/// A line without its carriage return at the end, if it has one.
pub open spec fn strip_cr(l: Seq<char>) -> Seq<char> {
    if l.len() > 0 && l.last() == '\r' {
        l.drop_last()
    } else {
        l
    }
}

/// The lines of a text as `str::lines` yields them: split at line feeds, a
/// carriage return before a line feed dropped, no empty line after a final feed.
pub open spec fn lines_of(s: Seq<char>) -> Seq<Seq<char>> {
    let p = pieces(s);
    let q = if p.last().len() == 0 {
        p.drop_last()
    } else {
        p
    };
    Seq::new(q.len(), |i: int| strip_cr(q[i]))
}

/// Lines joined with a line feed between each two.
pub open spec fn joined(ls: Seq<Seq<char>>) -> Seq<char>
    decreases ls.len(),
{
    if ls.len() == 0 {
        Seq::<char>::empty()
    } else if ls.len() == 1 {
        ls[0]
    } else {
        joined(ls.drop_last()) + seq!['\n'] + ls.last()
    }
}

proof fn lemma_pieces_nonempty(s: Seq<char>)
    ensures
        pieces(s).len() >= 1,
    decreases s.len(),
{
    if s.len() > 0 {
        lemma_pieces_nonempty(s.drop_last());
    }
}

/// Split a text into lines as `str::lines` does.
pub fn split_lines(s: &Vec<char>) -> (r: Vec<Vec<char>>)
    ensures
        r@.len() == lines_of(s@).len(),
        forall|i: int| 0 <= i < r@.len() ==> #[trigger] r@[i]@ == lines_of(s@)[i],
{
    let mut done: Vec<Vec<char>> = Vec::new();
    let mut cur: Vec<char> = Vec::new();
    let mut i: usize = 0;
    while i < s.len()
        invariant
            i <= s@.len(),
            pieces(s@.take(i as int)).len() == done@.len() + 1,
            cur@ == pieces(s@.take(i as int)).last(),
            forall|k: int|
                0 <= k < done@.len() ==> #[trigger] done@[k]@ == strip_cr(
                    pieces(s@.take(i as int))[k],
                ),
        decreases s@.len() - i,
    {
        let ghost before = s@.take(i as int);
        assert(s@.take(i + 1).drop_last() =~= before);
        assert(s@.take(i + 1).last() == s@[i as int]);
        if s[i] == '\n' {
            let n = cur.len();
            let line = if n > 0 && cur[n - 1] == '\r' {
                copy_chars(&cur, 0, n - 1)
            } else {
                copy_chars(&cur, 0, n)
            };
            assert(cur@.subrange(0, n as int) =~= cur@);
            assert(n > 0 ==> cur@.subrange(0, n - 1) =~= cur@.drop_last());
            done.push(line);
            cur = Vec::new();
        } else {
            cur.push(s[i]);
        }
        i = i + 1;
    }
    assert(s@.take(s@.len() as int) =~= s@);
    proof {
        lemma_pieces_nonempty(s@);
    }
    if cur.len() > 0 {
        let n = cur.len();
        let line = if cur[n - 1] == '\r' {
            copy_chars(&cur, 0, n - 1)
        } else {
            copy_chars(&cur, 0, n)
        };
        assert(cur@.subrange(0, n as int) =~= cur@);
        assert(cur@.subrange(0, n - 1) =~= cur@.drop_last());
        done.push(line);
    }
    done
}

/// Join lines with a line feed between each two.
pub fn join_lines_text(ls: &Vec<Vec<char>>) -> (r: Vec<char>)
    ensures
        r@ == joined(Seq::new(ls@.len(), |i: int| ls@[i]@)),
{
    let ghost v = Seq::new(ls@.len(), |i: int| ls@[i]@);
    let mut out: Vec<char> = Vec::new();
    let mut i: usize = 0;
    while i < ls.len()
        invariant
            i <= ls@.len(),
            v == Seq::new(ls@.len(), |i: int| ls@[i]@),
            out@ == joined(v.take(i as int)),
        decreases ls@.len() - i,
    {
        assert(v.take(i + 1).drop_last() =~= v.take(i as int));
        if i > 0 {
            out.push('\n');
        }
        let mut j: usize = 0;
        let ghost start = out@;
        while j < ls[i].len()
            invariant
                i < ls@.len(),
                j <= ls@[i as int]@.len(),
                out@ == start + ls@[i as int]@.take(j as int),
            decreases ls@[i as int]@.len() - j,
        {
            out.push(ls[i][j]);
            j = j + 1;
            assert(ls@[i as int]@.take(j as int) =~= ls@[i as int]@.take(j - 1).push(
                ls@[i as int]@[j - 1],
            ));
        }
        assert(ls@[i as int]@.take(j as int) =~= ls@[i as int]@);
        i = i + 1;
        if i == 1 {
            assert(out@ =~= joined(v.take(1)));
        }
    }
    assert(v.take(ls@.len() as int) =~= v);
    out
}

/// Decimal digit of a value below ten.
pub open spec fn digit_char(d: nat) -> char {
    if d == 0 { '0' }
    else if d == 1 { '1' }
    else if d == 2 { '2' }
    else if d == 3 { '3' }
    else if d == 4 { '4' }
    else if d == 5 { '5' }
    else if d == 6 { '6' }
    else if d == 7 { '7' }
    else if d == 8 { '8' }
    else { '9' }
}

/// Decimal notation of a number, without leading zeros.
pub open spec fn decimal(n: nat) -> Seq<char>
    decreases n,
{
    if n < 10 {
        seq![digit_char(n)]
    } else {
        decimal(n / 10).push(digit_char(n % 10))
    }
}

fn digit(d: usize) -> (c: char)
    requires
        d < 10,
    ensures
        c == digit_char(d as nat),
{
    if d == 0 { '0' }
    else if d == 1 { '1' }
    else if d == 2 { '2' }
    else if d == 3 { '3' }
    else if d == 4 { '4' }
    else if d == 5 { '5' }
    else if d == 6 { '6' }
    else if d == 7 { '7' }
    else if d == 8 { '8' }
    else { '9' }
}

/// Decimal notation of a number.
pub fn decimal_chars(n: usize) -> (r: Vec<char>)
    ensures
        r@ == decimal(n as nat),
    decreases n,
{
    if n < 10 {
        let mut v: Vec<char> = Vec::new();
        v.push(digit(n));
        v
    } else {
        let mut v = decimal_chars(n / 10);
        v.push(digit(n % 10));
        v
    }
}

} // verus!
