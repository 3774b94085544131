use vstd::prelude::*;
use crate::text;
use crate::codex::jsontext;

verus! {

/// The lowercase hexadecimal digit of `d` (0..=15).
pub open spec fn hex_char(d: nat) -> char {
    if d < 10 {
        (48 + d) as char
    } else {
        (87 + d) as char
    }
}

/// The two lowercase hexadecimal digits of a byte.
pub open spec fn hex2(b: u8) -> Seq<char> {
    seq![hex_char((b / 16) as nat), hex_char((b % 16) as nat)]
}

/// The lowercase hexadecimal digits of `n`, without leading zeros.
pub open spec fn hex_digits(n: nat) -> Seq<char>
    decreases n,
{
    if n < 16 {
        seq![hex_char(n)]
    } else {
        hex_digits(n / 16).push(hex_char(n % 16))
    }
}

/// `n` in lowercase hexadecimal, zero-padded to six digits (`{:06x}`).
pub open spec fn hex6(n: nat) -> Seq<char> {
    let d = hex_digits(n);
    if d.len() < 6 {
        Seq::new((6 - d.len()) as nat, |i: int| '0') + d
    } else {
        d
    }
}

/// The byte columns of a row: each byte as two digits and a space, with one more space
/// after the eighth.
pub open spec fn row_bytes(c: Seq<u8>) -> Seq<char>
    decreases c.len(),
{
    if c.len() == 0 {
        Seq::empty()
    } else {
        row_bytes(c.drop_last()) + hex2(c.last()) + seq![' '] + if c.len() - 1 == 7 {
            seq![' ']
        } else {
            Seq::empty()
        }
    }
}

/// The blank columns that fill a short row from column `j` to the sixteenth.
pub open spec fn row_padding(j: int) -> Seq<char>
    decreases 16 - j,
{
    if j >= 16 {
        Seq::empty()
    } else {
        seq![' ', ' ', ' '] + (if j == 7 {
            seq![' ']
        } else {
            Seq::empty()
        }) + row_padding(j + 1)
    }
}

/// The character shown for a byte: itself where it is ASCII graphic or a space, else `.`.
pub open spec fn shown(b: u8) -> char {
    if 0x20 <= b && b <= 0x7E {
        b as char
    } else {
        '.'
    }
}

/// One row of the dump: offset, byte columns, padding, and the shown characters between bars.
pub open spec fn row(offset: nat, c: Seq<u8>) -> Seq<char> {
    hex6(offset) + seq![' ', ' '] + row_bytes(c) + row_padding(c.len() as int) + seq![' ', '|']
        + c.map_values(|b: u8| shown(b)) + seq!['|', '\n']
}

/// The hex dump of `data`, sixteen bytes per row, from offset `start` on.
pub open spec fn dump_from(data: Seq<u8>, start: nat) -> Seq<char>
    decreases data.len() + 16 - start,
{
    if start >= data.len() {
        Seq::empty()
    } else {
        let end: int = if start + 16 <= data.len() {
            (start + 16) as int
        } else {
            data.len() as int
        };
        row(start, data.subrange(start as int, end)) + dump_from(data, start + 16)
    }
}

/// The hex dump of `data`.
pub open spec fn spec_hexdump(data: Seq<u8>) -> Seq<char> {
    dump_from(data, 0)
}

fn push_hex_digit(s: &mut String, d: u8)
    requires
        d < 16,
    ensures
        final(s)@ == old(s)@.push(hex_char(d as nat)),
{
    let c: char = if d < 10 {
        (48 + d) as char
    } else {
        (87 + d) as char
    };
    text::push_char(s, c);
}

fn hex_digits_exec(n: usize) -> (s: String)
    ensures
        s@ == hex_digits(n as nat),
    decreases n,
{
    if n < 16 {
        let mut s = String::new();
        push_hex_digit(&mut s, n as u8);
        s
    } else {
        let mut s = hex_digits_exec(n / 16);
        push_hex_digit(&mut s, (n % 16) as u8);
        s
    }
}

fn push_hex6(s: &mut String, n: usize)
    ensures
        final(s)@ == old(s)@ + hex6(n as nat),
{
    let d = hex_digits_exec(n);
    let len = d.as_str().unicode_len();
    if len < 6 {
        let mut k: usize = 0;
        while k < 6 - len
            invariant
                len < 6,
                k <= 6 - len,
                s@ == old(s)@ + Seq::new(k as nat, |i: int| '0'),
            decreases 6 - len - k,
        {
            text::push_char(s, '0');
            k = k + 1;
            assert(s@ =~= old(s)@ + Seq::new(k as nat, |i: int| '0'));
        }
    }
    s.append(d.as_str());
    assert(s@ =~= old(s)@ + hex6(n as nat));
}

fn push_row_bytes(s: &mut String, c: &[u8])
    requires
        c@.len() <= 16,
    ensures
        final(s)@ == old(s)@ + row_bytes(c@),
{
    let mut j: usize = 0;
    while j < c.len()
        invariant
            c@.len() <= 16,
            j <= c@.len(),
            s@ == old(s)@ + row_bytes(c@.take(j as int)),
        decreases c@.len() - j,
    {
        let b = c[j];
        push_hex_digit(s, b / 16);
        push_hex_digit(s, b % 16);
        text::push_char(s, ' ');
        if j == 7 {
            text::push_char(s, ' ');
        }
        proof {
            let t = c@.take(j + 1);
            assert(t.drop_last() =~= c@.take(j as int));
            assert(t.last() == b);
        }
        assert(s@ =~= old(s)@ + row_bytes(c@.take(j + 1)));
        j = j + 1;
    }
    assert(c@.take(c@.len() as int) =~= c@);
}

fn push_padding(s: &mut String, from: usize)
    requires
        from <= 16,
    ensures
        final(s)@ == old(s)@ + row_padding(from as int),
{
    let mut p: usize = from;
    while p < 16
        invariant
            from <= p <= 16,
            s@ + row_padding(p as int) == old(s)@ + row_padding(from as int),
        decreases 16 - p,
    {
        text::push_char(s, ' ');
        text::push_char(s, ' ');
        text::push_char(s, ' ');
        if p == 7 {
            text::push_char(s, ' ');
        }
        assert(s@ + row_padding(p + 1) =~= old(s)@ + row_padding(from as int));
        p = p + 1;
    }
    assert(row_padding(16) =~= Seq::<char>::empty());
}

fn push_shown(s: &mut String, c: &[u8])
    ensures
        final(s)@ == old(s)@ + c@.map_values(|b: u8| shown(b)),
{
    let mut q: usize = 0;
    while q < c.len()
        invariant
            q <= c@.len(),
            s@ == old(s)@ + c@.take(q as int).map_values(|b: u8| shown(b)),
        decreases c@.len() - q,
    {
        let b = c[q];
        let ch: char = if 0x20 <= b && b <= 0x7E {
            b as char
        } else {
            '.'
        };
        text::push_char(s, ch);
        assert(c@.take(q + 1).map_values(|b: u8| shown(b)) =~= c@.take(q as int).map_values(
            |b: u8| shown(b),
        ).push(shown(b)));
        q = q + 1;
    }
    assert(c@.take(c@.len() as int) =~= c@);
}

fn push_row(s: &mut String, offset: usize, c: &[u8])
    requires
        c@.len() <= 16,
    ensures
        final(s)@ == old(s)@ + row(offset as nat, c@),
{
    push_hex6(s, offset);
    text::push_char(s, ' ');
    text::push_char(s, ' ');
    push_row_bytes(s, c);
    push_padding(s, c.len());
    text::push_char(s, ' ');
    text::push_char(s, '|');
    push_shown(s, c);
    text::push_char(s, '|');
    text::push_char(s, '\n');
    assert(s@ =~= old(s)@ + row(offset as nat, c@));
}

/// The hex dump of a file's bytes: sixteen bytes per row, each row with its offset, the bytes
/// in hexadecimal, and the bytes as characters.
pub fn hexdump(data: &[u8]) -> (s: String)
    ensures
        s@ == spec_hexdump(data@),
{
    let n = data.len();
    let mut s = String::new();
    let mut k: usize = 0;
    while k < n
        invariant
            n == data@.len(),
            k <= n,
            s@ + dump_from(data@, k as nat) == spec_hexdump(data@),
        decreases n - k,
    {
        let end = if n - k >= 16 {
            k + 16
        } else {
            n
        };
        let c = vstd::slice::slice_subrange(data, k, end);
        let ghost before = s@;
        push_row(&mut s, k, c);
        proof {
            if end == n {
                assert(dump_from(data@, (k + 16) as nat) =~= Seq::<char>::empty());
                assert(dump_from(data@, end as nat) =~= Seq::<char>::empty());
            }
        }
        k = end;
    }
    s
}


/// The JSON text re-indented by serde_json; text that does not parse as JSON is returned
/// unchanged.
pub fn pretty_json(json: &str) -> (s: String)
    ensures
        s@ == if jsontext::spec_is_json(json@) {
            jsontext::spec_pretty_json(json@)
        } else {
            json@
        },
{
    match jsontext::pretty_json_text(json) {
        Some(p) => p,
        None => String::from_str(json),
    }
}

} // verus!
