use vstd::prelude::*;
use crate::command::{all_digits, digits_value, parse_line_number};
use crate::text::{chars_of, copy_chars};

verus! {

/// Pieces of a text between dots, as `str::split('.')` yields them.
pub open spec fn dot_pieces(s: Seq<char>) -> Seq<Seq<char>>
    decreases s.len(),
{
    if s.len() == 0 {
        seq![Seq::<char>::empty()]
    } else {
        let p = dot_pieces(s.drop_last());
        if s.last() == '.' {
            p.push(Seq::<char>::empty())
        } else {
            p.update(p.len() - 1, p.last().push(s.last()))
        }
    }
}

/// What `u32::from_str` gives for a piece: an optional `+`, then decimal
/// digits whose value fits in a `u32`.
pub open spec fn parse_u32(seg: Seq<char>) -> Option<nat> {
    let d = if seg.len() > 0 && seg[0] == '+' {
        seg.drop_first()
    } else {
        seg
    };
    if all_digits(d) && digits_value(d) <= u32::MAX {
        Some(digits_value(d))
    } else {
        None
    }
}

/// The pieces that parse as numbers, in order.
pub open spec fn numbers(ps: Seq<Seq<char>>) -> Seq<nat>
    decreases ps.len(),
{
    if ps.len() == 0 {
        Seq::<nat>::empty()
    } else {
        let r = numbers(ps.drop_last());
        match parse_u32(ps.last()) {
            Some(n) => r.push(n),
            None => r,
        }
    }
}

/// Version `c` is at least `r`: the first differing component decides, and
/// when one is a prefix of the other the longer one is at least the shorter.
pub open spec fn at_least(c: Seq<nat>, r: Seq<nat>) -> bool
    decreases c.len(),
{
    if c.len() == 0 || r.len() == 0 {
        c.len() >= r.len()
    } else if c[0] > r[0] {
        true
    } else if c[0] < r[0] {
        false
    } else {
        at_least(c.drop_first(), r.drop_first())
    }
}

/// Numbers as mathematical naturals.
pub open spec fn as_nats(v: Seq<u32>) -> Seq<nat> {
    Seq::new(v.len(), |i: int| v[i] as nat)
}

proof fn lemma_pieces_nonempty(s: Seq<char>)
    ensures
        dot_pieces(s).len() >= 1,
    decreases s.len(),
{
    if s.len() > 0 {
        lemma_pieces_nonempty(s.drop_last());
    }
}

fn parse_piece(seg: &Vec<char>) -> (r: Option<u32>)
    ensures
        match r {
            Some(n) => parse_u32(seg@) == Some(n as nat),
            None => parse_u32(seg@) is None,
        },
{
    let d = if seg.len() > 0 && seg[0] == '+' {
        copy_chars(seg, 1, seg.len())
    } else {
        copy_chars(seg, 0, seg.len())
    };
    assert(seg@.len() > 0 && seg@[0] == '+' ==> d@ =~= seg@.drop_first());
    assert(!(seg@.len() > 0 && seg@[0] == '+') ==> d@ =~= seg@);
    match parse_line_number(&d) {
        Some(n) => {
            if n <= 4294967295 {
                Some(n as u32)
            } else {
                None
            }
        },
        None => None,
    }
}

fn version_numbers(s: &str) -> (r: Vec<u32>)
    ensures
        as_nats(r@) == numbers(dot_pieces(s@)),
{
    let chars = chars_of(s);
    let mut out: Vec<u32> = Vec::new();
    let mut cur: Vec<char> = Vec::new();
    let mut i: usize = 0;
    while i < chars.len()
        invariant
            chars@ == s@,
            i <= chars@.len(),
            dot_pieces(chars@.take(i as int)).len() >= 1,
            cur@ == dot_pieces(chars@.take(i as int)).last(),
            as_nats(out@) == numbers(
                dot_pieces(chars@.take(i as int)).drop_last(),
            ),
        decreases chars@.len() - i,
    {
        let ghost before = chars@.take(i as int);
        assert(chars@.take(i + 1).drop_last() =~= before);
        assert(chars@.take(i + 1).last() == chars@[i as int]);
        let ghost p = dot_pieces(before);
        if chars[i] == '.' {
            let ghost prev = as_nats(out@);
            match parse_piece(&cur) {
                Some(n) => {
                    out.push(n);
                    assert(as_nats(out@) =~= prev.push(n as nat));
                },
                None => {},
            }
            assert(dot_pieces(chars@.take(i + 1)).drop_last() =~= p);
            assert(p.drop_last().push(p.last()) =~= p);
            cur = Vec::new();
        } else {
            cur.push(chars[i]);
            assert(dot_pieces(chars@.take(i + 1)).drop_last() =~= p.drop_last());
        }
        i = i + 1;
    }
    assert(chars@.take(chars@.len() as int) =~= chars@);
    let ghost p = dot_pieces(s@);
    let ghost prev = as_nats(out@);
    match parse_piece(&cur) {
        Some(n) => {
            out.push(n);
            assert(as_nats(out@) =~= prev.push(n as nat));
        },
        None => {},
    }
    assert(p.drop_last().push(p.last()) =~= p);
    out
}

/// Whether version `current` is at least `required`, comparing the
/// dot-separated numeric parts (parts that are not numbers are skipped).
pub fn version_compatible(current: &str, required: &str) -> (r: bool)
    ensures
        r == at_least(numbers(dot_pieces(current@)), numbers(dot_pieces(required@))),
{
    let c = version_numbers(current);
    let q = version_numbers(required);
    let ghost cv = as_nats(c@);
    let ghost qv = as_nats(q@);
    let mut i: usize = 0;
    assert(cv.subrange(0, cv.len() as int) =~= cv);
    assert(qv.subrange(0, qv.len() as int) =~= qv);
    while i < c.len() && i < q.len()
        invariant
            cv == as_nats(c@),
            qv == as_nats(q@),
            cv == numbers(dot_pieces(current@)),
            qv == numbers(dot_pieces(required@)),
            i <= c@.len(),
            i <= q@.len(),
            at_least(cv, qv) == at_least(cv.subrange(i as int, cv.len() as int), qv.subrange(
                i as int,
                qv.len() as int,
            )),
        decreases c@.len() - i,
    {
        let ghost a = cv.subrange(i as int, cv.len() as int);
        let ghost b = qv.subrange(i as int, qv.len() as int);
        assert(a[0] == c@[i as int] as nat);
        assert(b[0] == q@[i as int] as nat);
        assert(a.len() > 0 && b.len() > 0);
        if c[i] > q[i] {
            assert(at_least(a, b));
            return true;
        }
        if c[i] < q[i] {
            assert(!at_least(a, b));
            return false;
        }
        assert(a.drop_first() =~= cv.subrange(i + 1, cv.len() as int));
        assert(b.drop_first() =~= qv.subrange(i + 1, qv.len() as int));
        i = i + 1;
    }
    c.len() >= q.len()
}

} // verus!
