use vstd::prelude::*;
use alloy::hex::FromHexError;
use crate::text;

verus! {

/// The error type of alloy's (const-hex) hex decoding.
#[verifier::external_type_specification]
#[verifier::external_body]
pub struct ExFromHexError(FromHexError);

/// An ASCII hexadecimal digit, as `char::is_ascii_hexdigit` accepts it.
pub open spec fn is_hex_digit(c: char) -> bool {
    let u = c as u32;
    (48 <= u && u <= 57) || (65 <= u && u <= 70) || (97 <= u && u <= 102)
}

/// The value of a hexadecimal digit.
pub open spec fn hex_value(c: char) -> nat {
    let u = c as u32;
    if 48 <= u && u <= 57 {
        (u - 48) as nat
    } else if 65 <= u && u <= 70 {
        (u - 55) as nat
    } else {
        (u - 87) as nat
    }
}

/// The bytes that pairs of hexadecimal digits spell, high digit first.
pub open spec fn spec_hex_decode(s: Seq<char>) -> Seq<u8> {
    Seq::new(s.len() / 2, |i: int| (hex_value(s[2 * i]) * 16 + hex_value(s[2 * i + 1])) as u8)
}

/// `alloy::hex::decode` on a string of hexadecimal digits. Trusted: it fails exactly on an
/// odd number of digits, and otherwise yields the bytes the digit pairs spell.
#[verifier::external_body]
fn hex_decode(s: &str) -> (r: Result<Vec<u8>, FromHexError>)
    requires
        forall|i: int| 0 <= i < s@.len() ==> is_hex_digit(#[trigger] s@[i]),
    ensures
        r is Ok <==> s@.len() % 2 == 0,
        r matches Ok(v) ==> v@ == spec_hex_decode(s@),
{
    alloy::hex::decode(s)
}

/// Why hex text does not convert to bytes.
#[derive(Debug, PartialEq, Eq)]
pub enum HexTextError {
    /// The digits that remain do not pair up.
    OddLength,
}

/// `s` without a leading `0x`.
pub open spec fn spec_strip_0x(s: Seq<char>) -> Seq<char> {
    if s.len() >= 2 && s[0] == '0' && s[1] == 'x' {
        s.skip(2)
    } else {
        s
    }
}

/// The hexadecimal digits of `s`, in order.
pub open spec fn spec_hex_digits(s: Seq<char>) -> Seq<char>
    decreases s.len(),
{
    if s.len() == 0 {
        Seq::empty()
    } else if is_hex_digit(s.last()) {
        spec_hex_digits(s.drop_last()).push(s.last())
    } else {
        spec_hex_digits(s.drop_last())
    }
}

/// The digits a hex text file holds: trimmed, without a leading `0x`, every other character
/// dropped.
pub open spec fn spec_clean_hex(content: Seq<char>) -> Seq<char> {
    spec_hex_digits(spec_strip_0x(text::spec_trim(content)))
}

proof fn lemma_hex_digits_all(s: Seq<char>)
    ensures
        forall|i: int| 0 <= i < spec_hex_digits(s).len() ==> is_hex_digit(#[trigger] spec_hex_digits(s)[i]),
    decreases s.len(),
{
    if s.len() > 0 {
        lemma_hex_digits_all(s.drop_last());
        let prev = spec_hex_digits(s.drop_last());
        if is_hex_digit(s.last()) {
            assert forall|i: int| 0 <= i < prev.push(s.last()).len() implies is_hex_digit(
                #[trigger] prev.push(s.last())[i],
            ) by {
                if i < prev.len() {
                    assert(prev.push(s.last())[i] == prev[i]);
                }
            }
        }
    }
}

/// The bytes spelled by the hexadecimal digits of a text, after trimming and dropping a
/// leading `0x`; fails where the digits do not pair up.
pub fn hex_text_to_bytes(content: &str) -> (r: Result<Vec<u8>, HexTextError>)
    ensures
        match r {
            Ok(v) => spec_clean_hex(content@).len() % 2 == 0 && v@ == spec_hex_decode(
                spec_clean_hex(content@),
            ),
            Err(e) => spec_clean_hex(content@).len() % 2 == 1 && e == HexTextError::OddLength,
        },
{
    let trimmed = text::trim(content);
    let n = trimmed.unicode_len();
    let start: usize = if n >= 2 && trimmed.get_char(0) == '0' && trimmed.get_char(1) == 'x' {
        2
    } else {
        0
    };
    let body = trimmed.substring_char(start, n);
    assert(body@ =~= spec_strip_0x(trimmed@));
    let m = body.unicode_len();
    let mut clean = String::new();
    let mut i: usize = 0;
    while i < m
        invariant
            m == body@.len(),
            i <= m,
            clean@ == spec_hex_digits(body@.take(i as int)),
        decreases m - i,
    {
        let c = body.get_char(i);
        let u = c as u32;
        if (48 <= u && u <= 57) || (65 <= u && u <= 70) || (97 <= u && u <= 102) {
            text::push_char(&mut clean, c);
        }
        proof {
            let t = body@.take(i + 1);
            assert(t.drop_last() =~= body@.take(i as int));
            assert(t.last() == c);
        }
        i = i + 1;
    }
    assert(body@.take(m as int) =~= body@);
    proof {
        lemma_hex_digits_all(body@);
    }
    match hex_decode(clean.as_str()) {
        Ok(v) => Ok(v),
        Err(_) => Err(HexTextError::OddLength),
    }
}

} // verus!
