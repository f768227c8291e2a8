use vstd::prelude::*;
use crate::text::{chars_of, string_of, concat_chars};

verus! {

/// Characters of the ASCII-art ramp, from dark to light.
pub open spec fn ascii_ramp() -> Seq<char> {
    seq![' ', '.', ':', '-', '=', '+', '*', '#', '%', '@']
}

/// Grayscale to ASCII character: the ramp scaled over 0..=255.
pub fn gray_to_ascii(gray: u8) -> (c: char)
    ensures
        c == ascii_ramp()[(gray as int * 9) / 255],
{
    let index: usize = (gray as usize * 9) / 255;
    let ramp = ['\u{20}', '.', ':', '-', '=', '+', '*', '#', '%', '@'];
    assert(index < 10) by (nonlinear_arith)
        requires
            index == (gray as int * 9) / 255,
            gray <= 255,
    ;
    let c = ramp[index];
    assert(ramp@ =~= ascii_ramp());
    c
}

/// What `char::is_control` says: the Unicode general category `Cc`,
/// that is U+0000 to U+001F and U+007F to U+009F.
pub open spec fn control_char(c: char) -> bool {
    (c as u32) <= 0x1F || (0x7F <= (c as u32) && (c as u32) <= 0x9F)
}

/// Bytes of a character in UTF-8.
pub open spec fn utf8_len(c: char) -> nat {
    if (c as u32) < 0x80 {
        1
    } else if (c as u32) < 0x800 {
        2
    } else if (c as u32) < 0x10000 {
        3
    } else {
        4
    }
}

/// Bytes of a text in UTF-8.
pub open spec fn utf8_bytes(s: Seq<char>) -> nat
    decreases s.len(),
{
    if s.len() == 0 {
        0
    } else {
        utf8_bytes(s.drop_last()) + utf8_len(s.last())
    }
}

/// Control characters other than line feed, carriage return and tab.
pub open spec fn odd_controls(s: Seq<char>) -> nat
    decreases s.len(),
{
    if s.len() == 0 {
        0
    } else {
        odd_controls(s.drop_last()) + if control_char(s.last()) && s.last() != '\n' && s.last()
            != '\r' && s.last() != '\t' {
            1nat
        } else {
            0nat
        }
    }
}

/// Most bytes of a text that the binary check samples.
pub const SAMPLE_BYTES: usize = 8192;

/// `k` characters make the sample: as many as fit in the first 8192 bytes.
pub open spec fn sample_len(s: Seq<char>, k: int) -> bool {
    &&& 0 <= k <= s.len()
    &&& utf8_bytes(s.take(k)) <= SAMPLE_BYTES
    &&& (k == s.len() || utf8_bytes(s.take(k + 1)) > SAMPLE_BYTES)
}

/// The sample holds a NUL, or more than a tenth of its bytes are other
/// control characters.
pub open spec fn looks_binary(sample: Seq<char>) -> bool {
    sample.contains('\0') || 10 * odd_controls(sample) > utf8_bytes(sample)
}

fn char_bytes(c: char) -> (n: usize)
    ensures
        n == utf8_len(c),
{
    let v = c as u32;
    if v < 0x80 {
        1
    } else if v < 0x800 {
        2
    } else if v < 0x10000 {
        3
    } else {
        4
    }
}

fn is_control(c: char) -> (r: bool)
    ensures
        r == control_char(c),
{
    let v = c as u32;
    v <= 0x1F || (0x7F <= v && v <= 0x9F)
}

/// Guess whether text content is binary from its first 8192 bytes.
pub fn is_likely_binary(content: &str) -> (r: bool)
    ensures
        content@.len() == 0 ==> !r,
        exists|k: int| #[trigger] sample_len(content@, k),
        forall|k: int| #[trigger] sample_len(content@, k) ==> r == looks_binary(content@.take(k)),
{
    let chars = chars_of(content);
    let mut bytes: usize = 0;
    let mut controls: usize = 0;
    let mut i: usize = 0;
    let mut nul = false;
    while i < chars.len() && char_bytes(chars[i]) <= SAMPLE_BYTES - bytes
        invariant
            i <= chars@.len(),
            chars@ == content@,
            bytes as nat == utf8_bytes(chars@.take(i as int)),
            bytes <= SAMPLE_BYTES,
            controls as nat == odd_controls(chars@.take(i as int)),
            controls <= bytes,
            nul == chars@.take(i as int).contains('\0'),
        decreases chars@.len() - i,
    {
        let c = chars[i];
        let w = char_bytes(c);
        assert(chars@.take(i + 1).drop_last() =~= chars@.take(i as int));
        assert(chars@.take(i + 1).last() == c);
        if c == '\0' {
            nul = true;
        }
        if is_control(c) && c != '\n' && c != '\r' && c != '\t' {
            controls = controls + 1;
        }
        bytes = bytes + w;
        i = i + 1;
        assert(nul == chars@.take(i as int).contains('\0')) by {
            if chars@.take(i - 1).contains('\0') {
                let j = choose|j: int| 0 <= j < chars@.take(i - 1).len() && #[trigger] chars@.take(i - 1)[j] == '\0';
                assert(chars@.take(i as int)[j] == '\0');
            }
            if chars@.take(i as int).contains('\0') {
                let j = choose|j: int| 0 <= j < chars@.take(i as int).len() && #[trigger] chars@.take(i as int)[j] == '\0';
                if j < i - 1 {
                    assert(chars@.take(i - 1)[j] == '\0');
                }
            }
        }
    }
    proof {
        if i < chars@.len() {
            assert(chars@.take(i + 1).drop_last() =~= chars@.take(i as int));
            assert(utf8_bytes(chars@.take(i + 1)) > SAMPLE_BYTES);
        }
        assert(sample_len(content@, i as int));
        assert forall|k: int| #[trigger] sample_len(content@, k) implies k == i by {
            lemma_bytes_monotone(content@, k, i as int);
            lemma_bytes_monotone(content@, i as int, k);
        }
    }
    nul || 10 * controls > bytes
}

proof fn lemma_bytes_grow(s: Seq<char>, a: int, b: int)
    requires
        0 <= a <= b <= s.len(),
    ensures
        utf8_bytes(s.take(a)) <= utf8_bytes(s.take(b)),
        a < b ==> utf8_bytes(s.take(a + 1)) <= utf8_bytes(s.take(b)),
    decreases b - a,
{
    if a < b {
        lemma_bytes_grow(s, a, b - 1);
        assert(s.take(b).drop_last() =~= s.take(b - 1));
    }
}

proof fn lemma_bytes_monotone(s: Seq<char>, a: int, b: int)
    requires
        0 <= a <= s.len(),
        0 <= b <= s.len(),
        utf8_bytes(s.take(a)) <= SAMPLE_BYTES,
        a == s.len() || utf8_bytes(s.take(a + 1)) > SAMPLE_BYTES,
        utf8_bytes(s.take(b)) <= SAMPLE_BYTES,
    ensures
        b <= a,
{
    if b > a {
        lemma_bytes_grow(s, a, b);
    }
}

} // verus!

verus! {

/// Hex digit of a value below 16, upper case.
pub open spec fn hex_digit(d: nat) -> char {
    if d < 10 {
        ((d + 48) as u8) as char
    } else {
        ((d + 55) as u8) as char
    }
}

/// Hexadecimal notation of a number, upper case, without leading zeros.
pub open spec fn hex_of(n: nat) -> Seq<char>
    decreases n,
{
    if n < 16 {
        seq![hex_digit(n)]
    } else {
        hex_of(n / 16).push(hex_digit(n % 16))
    }
}

/// Hexadecimal notation padded with zeros to at least `w` digits.
pub open spec fn hex_padded(n: nat, w: nat) -> Seq<char> {
    let h = hex_of(n);
    if h.len() < w {
        Seq::new((w - h.len()) as nat, |i: int| '0') + h
    } else {
        h
    }
}

/// One hex cell of a row: two digits and a space, or three spaces past the data.
pub open spec fn hex_cell(chunk: Seq<u8>, i: int) -> Seq<char> {
    if i < chunk.len() {
        hex_padded(chunk[i] as nat, 2) + seq![' ']
    } else {
        seq![' ', ' ', ' ']
    }
}

pub open spec fn hex_cells(chunk: Seq<u8>, from: int, to: int) -> Seq<char>
    decreases to - from,
{
    if to <= from {
        Seq::<char>::empty()
    } else {
        hex_cells(chunk, from, to - 1) + hex_cell(chunk, to - 1)
    }
}

/// A byte as shown in the ASCII column.
pub open spec fn shown(b: u8) -> char {
    if 0x20 <= b <= 0x7E {
        b as char
    } else {
        '.'
    }
}

/// One row of the hex view for chunk number `k`.
pub open spec fn hex_row(chunk: Seq<u8>, k: nat) -> Seq<char> {
    "║ "@ + hex_padded(16 * k, 8) + seq![' ', ' '] + hex_cells(chunk, 0, 8) + seq![' ']
        + hex_cells(chunk, 8, 16) + seq![' '] + Seq::new(chunk.len(), |i: int| shown(chunk[i]))
        + Seq::new((16 - chunk.len()) as nat, |i: int| ' ') + " ║\n"@
}

/// The rows for the chunks of 16 bytes from chunk `k` on.
pub open spec fn hex_rows(data: Seq<u8>, k: nat) -> Seq<char>
    decreases data.len() + 16 - 16 * k,
{
    if 16 * k >= data.len() {
        Seq::<char>::empty()
    } else {
        let end: int = if 16 * k + 16 <= data.len() {
            (16 * k + 16) as int
        } else {
            data.len() as int
        };
        hex_row(data.subrange((16 * k) as int, end), k) + hex_rows(data, k + 1)
    }
}

/// The whole hex view: a framed header, a note when the data was cut
/// short, the column titles, one row per 16 bytes, and the frame's end.
pub open spec fn hex_view(data: Seq<u8>, truncated: bool) -> Seq<char> {
    "╔══════════════════════════════════════════════════════════════════════════════════╗\n"@ + "║                              HEX VIEWER                                          ║\n"@ + "╠══════════════════════════════════════════════════════════════════════════════════╣\n"@ + (if truncated {
        "║ NOTE: File is larger than 100MB. Showing first 1MB only.                        ║\n"@ + "╠══════════════════════════════════════════════════════════════════════════════════╣\n"@
    } else {
        Seq::<char>::empty()
    }) + "║ Offset    00 01 02 03 04 05 06 07  08 09 0A 0B 0C 0D 0E 0F  ASCII                ║\n"@ + "╠══════════════════════════════════════════════════════════════════════════════════╣\n"@ + hex_rows(data, 0) + "╚══════════════════════════════════════════════════════════════════════════════════╝\n"@
}

fn hex_digit_char(d: usize) -> (c: char)
    requires
        d < 16,
    ensures
        c == hex_digit(d as nat),
{
    if d < 10 {
        ((d + 48) as u8) as char
    } else {
        ((d + 55) as u8) as char
    }
}

fn hex_chars(n: usize) -> (r: Vec<char>)
    ensures
        r@ == hex_of(n as nat),
    decreases n,
{
    if n < 16 {
        let mut v: Vec<char> = Vec::new();
        v.push(hex_digit_char(n));
        v
    } else {
        let mut v = hex_chars(n / 16);
        v.push(hex_digit_char(n % 16));
        v
    }
}

fn hex_padded_chars(n: usize, w: usize) -> (r: Vec<char>)
    ensures
        r@ == hex_padded(n as nat, w as nat),
{
    let h = hex_chars(n);
    if h.len() < w {
        let mut z: Vec<char> = Vec::new();
        let k = w - h.len();
        while z.len() < k
            invariant
                z@.len() <= k,
                forall|i: int| 0 <= i < z@.len() ==> z@[i] == '0',
            decreases k - z@.len(),
        {
            z.push('0');
        }
        assert(z@ =~= Seq::new((w - h@.len()) as nat, |i: int| '0'));
        concat_chars(&z, &h)
    } else {
        h
    }
}

fn push_text(out: &mut Vec<char>, s: &str)
    ensures
        final(out)@ == old(out)@ + s@,
{
    let c = chars_of(s);
    let r = concat_chars(out, &c);
    *out = r;
}

fn hex_row_chars(data: &[u8], start: usize, end: usize, k: usize) -> (r: Vec<char>)
    requires
        start <= end <= data@.len(),
        end - start <= 16,
        start == 16 * k,
    ensures
        r@ == hex_row(data@.subrange(start as int, end as int), k as nat),
{
    let ghost chunk = data@.subrange(start as int, end as int);
    let len = end - start;
    let mut out: Vec<char> = Vec::new();
    push_text(&mut out, "║ ");
    let addr = hex_padded_chars(start, 8);
    out = concat_chars(&out, &addr);
    out.push(' ');
    out.push(' ');
    let ghost head = out@;
    let mut i: usize = 0;
    while i < 16
        invariant
            start <= end <= data@.len(),
            len == end - start,
            chunk == data@.subrange(start as int, end as int),
            chunk.len() <= 16,
            i <= 16,
            out@ == head + hex_cells(chunk, 0, if i <= 8 { i as int } else { 8 }) + (if i > 8 {
                seq![' '] + hex_cells(chunk, 8, i as int)
            } else {
                Seq::<char>::empty()
            }),
        decreases 16 - i,
    {
        if i == 8 {
            out.push(' ');
            assert(hex_cells(chunk, 8, 8) =~= Seq::<char>::empty());
        }
        let ghost before = out@;
        if i < len {
            let cell = hex_padded_chars(data[start + i] as usize, 2);
            out = concat_chars(&out, &cell);
            out.push(' ');
        } else {
            out.push(' ');
            out.push(' ');
            out.push(' ');
        }
        assert(out@ =~= before + hex_cell(chunk, i as int));
        i = i + 1;
    }
    out.push(' ');
    let mut j: usize = 0;
    let ghost mid = out@;
    while j < len
        invariant
            start <= end <= data@.len(),
            len == end - start,
            chunk == data@.subrange(start as int, end as int),
            j <= len,
            out@ == mid + Seq::new(j as nat, |x: int| shown(chunk[x])),
        decreases len - j,
    {
        let b = data[start + j];
        let c = if 0x20 <= b && b <= 0x7E {
            b as char
        } else {
            '.'
        };
        out.push(c);
        j = j + 1;
        assert(out@ =~= mid + Seq::new(j as nat, |x: int| shown(chunk[x])));
    }
    let mut p: usize = len;
    let ghost asc = out@;
    while p < 16
        invariant
            len <= p <= 16,
            len == chunk.len(),
            out@ == asc + Seq::new((p - len) as nat, |x: int| ' '),
        decreases 16 - p,
    {
        out.push(' ');
        p = p + 1;
        assert(out@ =~= asc + Seq::new((p - len) as nat, |x: int| ' '));
    }
    push_text(&mut out, " ║\n");
    assert(out@ =~= hex_row(chunk, k as nat));
    out
}

/// Format binary data as a hex view: offsets, sixteen bytes per row in hex,
/// and the printable ASCII characters.
pub fn format_hex_view(data: &[u8], truncated: bool) -> (r: String)
    ensures
        r@ == hex_view(data@, truncated),
{
    let mut out: Vec<char> = Vec::new();
    push_text(&mut out, "╔══════════════════════════════════════════════════════════════════════════════════╗\n");
    push_text(&mut out, "║                              HEX VIEWER                                          ║\n");
    push_text(&mut out, "╠══════════════════════════════════════════════════════════════════════════════════╣\n");
    if truncated {
        push_text(&mut out, "║ NOTE: File is larger than 100MB. Showing first 1MB only.                        ║\n");
        push_text(&mut out, "╠══════════════════════════════════════════════════════════════════════════════════╣\n");
    }
    push_text(&mut out, "║ Offset    00 01 02 03 04 05 06 07  08 09 0A 0B 0C 0D 0E 0F  ASCII                ║\n");
    push_text(&mut out, "╠══════════════════════════════════════════════════════════════════════════════════╣\n");
    let ghost head = out@;
    let n = data.len();
    let mut k: usize = 0;
    let mut start: usize = 0;
    loop
        invariant_except_break
            n == data@.len(),
            start == 16 * k,
            start <= n,
            out@ + hex_rows(data@, k as nat) == head + hex_rows(data@, 0),
        ensures
            out@ == head + hex_rows(data@, 0),
        decreases n - start,
    {
        if start >= n {
            assert(hex_rows(data@, k as nat) =~= Seq::<char>::empty());
            assert(out@ + Seq::<char>::empty() =~= out@);
            break;
        }
        let end = if n - start > 16 {
            start + 16
        } else {
            n
        };
        let row = hex_row_chars(data, start, end, k);
        let ghost before = out@;
        out = concat_chars(&out, &row);
        assert(hex_rows(data@, k as nat) == row@ + hex_rows(data@, (k + 1) as nat));
        assert(before + hex_rows(data@, k as nat) =~= out@ + hex_rows(data@, (k + 1) as nat));
        if end == n {
            assert(hex_rows(data@, (k + 1) as nat) =~= Seq::<char>::empty());
            assert(out@ + Seq::<char>::empty() =~= out@);
            break;
        }
        start = end;
        k = k + 1;
    }
    push_text(&mut out, "╚══════════════════════════════════════════════════════════════════════════════════╝\n");
    string_of(out.as_slice())
}

} // verus!
