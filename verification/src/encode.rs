//! The percent-encoder that makes text safe for use as a URL parameter
//! value, together with the decimal and boolean renderings that the
//! builders store for numeric and boolean parameters.

use vstd::prelude::*;
use vstd::utf8::{
    char_is_scalar, encode_scalar, has_width_1_encoding, has_width_2_encoding,
    has_width_3_encoding, last_continuation_byte, leading_byte_width_1, leading_byte_width_2,
    leading_byte_width_3, leading_byte_width_4, second_last_continuation_byte,
    third_last_continuation_byte,
};

verus! {

/// A character the encoder passes through unchanged: an ASCII letter or digit.
/// Every other character is emitted as the percent-encoding of its UTF-8 bytes.
pub open spec fn is_plain_char(c: char) -> bool {
    ||| 48 <= c as u32 <= 57
    ||| 65 <= c as u32 <= 90
    ||| 97 <= c as u32 <= 122
}

/// The uppercase hexadecimal digit for a value below 16.
pub open spec fn hex_char(n: u8) -> char
    recommends
        n < 16,
{
    if n < 10 {
        (48 + n) as char
    } else {
        (55 + n) as char
    }
}

/// `%HH` for one byte: a percent sign and two uppercase hexadecimal digits.
pub open spec fn pct_byte(b: u8) -> Seq<char> {
    seq!['%', hex_char(b / 16), hex_char(b % 16)]
}

/// The concatenation of `%HH` groups for a byte sequence.
pub open spec fn pct_bytes(bs: Seq<u8>) -> Seq<char>
    decreases bs.len(),
{
    if bs.len() == 0 {
        Seq::empty()
    } else {
        pct_byte(bs[0]) + pct_bytes(bs.drop_first())
    }
}

/// What the encoder emits for one character: the character itself when it is
/// an ASCII letter or digit, otherwise the percent-encoding of its UTF-8 bytes.
pub open spec fn encoded_char(c: char) -> Seq<char> {
    if is_plain_char(c) {
        seq![c]
    } else {
        pct_bytes(encode_scalar(c as u32))
    }
}

/// The percent-encoding of a character sequence: the per-character encodings
/// concatenated in input order.
pub open spec fn percent_encoded(s: Seq<char>) -> Seq<char>
    decreases s.len(),
{
    if s.len() == 0 {
        Seq::empty()
    } else {
        encoded_char(s[0]) + percent_encoded(s.drop_first())
    }
}

/// The encoding grows one character at a time from the left; this restates
/// [`percent_encoded`] for growth at the right end, the order the encoder
/// walks the input in.
pub proof fn lemma_percent_encoded_snoc(s: Seq<char>, c: char)
    ensures
        percent_encoded(s.push(c)) == percent_encoded(s) + encoded_char(c),
    decreases s.len(),
{
    if s.len() == 0 {
        reveal_with_fuel(percent_encoded, 2);
        assert(s.push(c).drop_first() =~= Seq::<char>::empty());
        assert(s.push(c)[0] == c);
        assert(percent_encoded(s.push(c)) =~= percent_encoded(s) + encoded_char(c));
    } else {
        assert(s.push(c).drop_first() =~= s.drop_first().push(c));
        lemma_percent_encoded_snoc(s.drop_first(), c);
        assert(percent_encoded(s.push(c)) =~= percent_encoded(s) + encoded_char(c));
    }
}

/// Text made of ASCII letters and digits only is left exactly as it is by
/// the percent-encoder.
pub proof fn lemma_percent_encode_plain_identity(s: Seq<char>)
    requires
        forall|i: int| 0 <= i < s.len() ==> is_plain_char(#[trigger] s[i]),
    ensures
        percent_encoded(s) == s,
    decreases s.len(),
{
    if s.len() == 0 {
        assert(percent_encoded(s) =~= s);
    } else {
        lemma_percent_encode_plain_identity(s.drop_first());
        assert(percent_encoded(s) =~= seq![s[0]] + s.drop_first());
        assert(seq![s[0]] + s.drop_first() =~= s);
    }
}


/// Relies on `str`'s `PartialEq`: equality of two string slices is equality
/// of their character sequences.
#[verifier::external_body]
pub(crate) fn str_eq(a: &str, b: &str) -> (r: bool)
    ensures
        r == (a@ == b@),
{
    a == b
}

/// Relies on `String::push`: appends exactly the one character.
#[verifier::external_body]
pub(crate) fn push_char(s: &mut String, c: char)
    ensures
        final(s)@ == old(s)@.push(c),
{
    s.push(c);
}

/// The executable form of [`hex_char`].
fn hex_char_exec(n: u8) -> (c: char)
    requires
        n < 16,
    ensures
        c == hex_char(n),
{
    if n < 10 {
        (48 + n) as char
    } else {
        (55 + n) as char
    }
}

/// Appends `%HH` for one byte.
fn push_pct_byte(out: &mut String, b: u8)
    ensures
        final(out)@ == old(out)@ + pct_byte(b),
{
    push_char(out, '%');
    push_char(out, hex_char_exec(b / 16));
    push_char(out, hex_char_exec(b % 16));
    proof {
        assert(out@ =~= old(out)@ + pct_byte(b));
    }
}

/// Appends the percent-encoded UTF-8 bytes of one character.
fn push_pct_scalar(out: &mut String, c: char)
    ensures
        final(out)@ == old(out)@ + pct_bytes(encode_scalar(c as u32)),
{
    proof {
        char_is_scalar(c);
    }
    let u = c as u32;
    let ghost bytes = encode_scalar(u);
    if u <= 0x7F {
        push_pct_byte(out, #[verifier::truncate] ((u & 0x7F) as u8));
        proof {
            assert(bytes =~= seq![leading_byte_width_1(u)]);
            assert(pct_bytes(bytes) =~= pct_byte(bytes[0]) + pct_bytes(bytes.drop_first()));
            assert(bytes.drop_first() =~= Seq::<u8>::empty());
            assert(out@ =~= old(out)@ + pct_bytes(bytes));
        }
    } else if u <= 0x7FF {
        let b0: u8 = 0xC0u8 | (#[verifier::truncate] (((u >> 6u32) & 0x1F) as u8));
        let b1: u8 = 0x80u8 | (#[verifier::truncate] ((u & 0x3F) as u8));
        push_pct_byte(out, b0);
        push_pct_byte(out, b1);
        proof {
            reveal_with_fuel(pct_bytes, 3);
            assert(has_width_2_encoding(u));
            assert(b0 == leading_byte_width_2(u));
            assert(b1 == last_continuation_byte(u));
            assert(bytes =~= seq![b0, b1]);
            assert(bytes.drop_first() =~= seq![b1]);
            assert(seq![b1].drop_first() =~= Seq::<u8>::empty());
            assert(pct_bytes(bytes) =~= pct_byte(b0) + pct_byte(b1));
            assert(out@ =~= old(out)@ + pct_bytes(bytes));
        }
    } else if u <= 0xFFFF {
        let b0: u8 = 0xE0u8 | (#[verifier::truncate] (((u >> 12u32) & 0x0F) as u8));
        let b1: u8 = 0x80u8 | (#[verifier::truncate] (((u >> 6u32) & 0x3F) as u8));
        let b2: u8 = 0x80u8 | (#[verifier::truncate] ((u & 0x3F) as u8));
        push_pct_byte(out, b0);
        push_pct_byte(out, b1);
        push_pct_byte(out, b2);
        proof {
            reveal_with_fuel(pct_bytes, 4);
            assert(has_width_3_encoding(u));
            assert(b0 == leading_byte_width_3(u));
            assert(b1 == second_last_continuation_byte(u));
            assert(b2 == last_continuation_byte(u));
            assert(bytes =~= seq![b0, b1, b2]);
            assert(bytes.drop_first() =~= seq![b1, b2]);
            assert(seq![b1, b2].drop_first() =~= seq![b2]);
            assert(seq![b2].drop_first() =~= Seq::<u8>::empty());
            assert(pct_bytes(bytes) =~= pct_byte(b0) + pct_byte(b1) + pct_byte(b2));
            assert(out@ =~= old(out)@ + pct_bytes(bytes));
        }
    } else {
        let b0: u8 = 0xF0u8 | (#[verifier::truncate] (((u >> 18u32) & 0x07) as u8));
        let b1: u8 = 0x80u8 | (#[verifier::truncate] (((u >> 12u32) & 0x3F) as u8));
        let b2: u8 = 0x80u8 | (#[verifier::truncate] (((u >> 6u32) & 0x3F) as u8));
        let b3: u8 = 0x80u8 | (#[verifier::truncate] ((u & 0x3F) as u8));
        push_pct_byte(out, b0);
        push_pct_byte(out, b1);
        push_pct_byte(out, b2);
        push_pct_byte(out, b3);
        proof {
            reveal_with_fuel(pct_bytes, 5);
            assert(b0 == leading_byte_width_4(u));
            assert(b1 == third_last_continuation_byte(u));
            assert(b2 == second_last_continuation_byte(u));
            assert(b3 == last_continuation_byte(u));
            assert(bytes =~= seq![b0, b1, b2, b3]);
            assert(bytes.drop_first() =~= seq![b1, b2, b3]);
            assert(seq![b1, b2, b3].drop_first() =~= seq![b2, b3]);
            assert(seq![b2, b3].drop_first() =~= seq![b3]);
            assert(seq![b3].drop_first() =~= Seq::<u8>::empty());
            assert(pct_bytes(bytes) =~= pct_byte(b0) + pct_byte(b1) + pct_byte(b2) + pct_byte(b3));
            assert(out@ =~= old(out)@ + pct_bytes(bytes));
        }
    }
}

/// Percent-encodes a string: ASCII letters and digits pass through, every
/// other character becomes the `%HH` groups of its UTF-8 bytes, uppercase.
pub fn percent_encode(s: &str) -> (r: String)
    ensures
        r@ == percent_encoded(s@),
{
    let mut out = String::new();
    let len = s.unicode_len();
    let mut i: usize = 0;
    while i < len
        invariant
            len == s@.len(),
            i <= len,
            out@ == percent_encoded(s@.subrange(0, i as int)),
        decreases len - i,
    {
        let c = s.get_char(i);
        let plain = (48 <= c as u32 && c as u32 <= 57) || (65 <= c as u32 && c as u32 <= 90)
            || (97 <= c as u32 && c as u32 <= 122);
        let ghost prefix = s@.subrange(0, i as int);
        if plain {
            push_char(&mut out, c);
        } else {
            push_pct_scalar(&mut out, c);
        }
        proof {
            lemma_percent_encoded_snoc(prefix, c);
            assert(prefix.push(c) =~= s@.subrange(0, i as int + 1));
        }
        i = i + 1;
    }
    proof {
        assert(s@.subrange(0, len as int) =~= s@);
    }
    out
}

/// The decimal rendering of a natural number, most significant digit first,
/// with no leading zeros (a single `0` for zero).
pub open spec fn decimal_of(n: nat) -> Seq<char>
    decreases n,
{
    if n < 10 {
        seq![hex_char(n as u8)]
    } else {
        decimal_of(n / 10).push(hex_char((n % 10) as u8))
    }
}

/// Appends the decimal rendering of `n`.
fn push_decimal(out: &mut String, n: u64)
    ensures
        final(out)@ == old(out)@ + decimal_of(n as nat),
    decreases n,
{
    if n < 10 {
        push_char(out, hex_char_exec(n as u8));
        proof {
            assert(out@ =~= old(out)@ + decimal_of(n as nat));
        }
    } else {
        push_decimal(out, n / 10);
        push_char(out, hex_char_exec((n % 10) as u8));
        proof {
            assert(out@ =~= old(out)@ + decimal_of(n as nat));
        }
    }
}

/// The decimal rendering of `n` as a fresh string.
pub fn decimal_string(n: u64) -> (r: String)
    ensures
        r@ == decimal_of(n as nat),
{
    let mut out = String::new();
    push_decimal(&mut out, n);
    proof {
        assert(out@ =~= decimal_of(n as nat));
    }
    out
}


/// The decimal rendering of a signed integer: a minus sign for negative
/// values, then the magnitude's digits.
pub open spec fn int_text(i: int) -> Seq<char> {
    if i < 0 {
        "-"@ + decimal_of((-i) as nat)
    } else {
        decimal_of(i as nat)
    }
}

/// The decimal rendering of a signed integer as a fresh string.
pub fn int_string(i: i64) -> (r: String)
    ensures
        r@ == int_text(i as int),
{
    if i >= 0 {
        decimal_string(i as u64)
    } else {
        let mag = (-(i as i128)) as u64;
        let mut out = String::from_str("-");
        let digits = decimal_string(mag);
        out.append(digits.as_str());
        out
    }
}

/// The text form of a boolean, `true` or `false`.
pub open spec fn bool_text(b: bool) -> Seq<char> {
    if b {
        "true"@
    } else {
        "false"@
    }
}

/// The text form of a boolean as a fresh string.
pub fn bool_string(b: bool) -> (r: String)
    ensures
        r@ == bool_text(b),
{
    if b {
        String::from_str("true")
    } else {
        String::from_str("false")
    }
}

/// Every decimal rendering consists of ASCII digits alone, so it passes
/// through the percent-encoder unchanged.
pub proof fn lemma_decimal_plain(n: nat)
    ensures
        forall|i: int| 0 <= i < decimal_of(n).len() ==> is_plain_char(#[trigger] decimal_of(n)[i]),
        percent_encoded(decimal_of(n)) == decimal_of(n),
    decreases n,
{
    if n < 10 {
    } else {
        lemma_decimal_plain(n / 10);
    }
    lemma_percent_encode_plain_identity(decimal_of(n));
}

/// The boolean renderings consist of ASCII letters alone, so they pass
/// through the percent-encoder unchanged.
pub proof fn lemma_bool_plain(b: bool)
    ensures
        percent_encoded(bool_text(b)) == bool_text(b),
{
    reveal_strlit("true");
    reveal_strlit("false");
    lemma_percent_encode_plain_identity(bool_text(b));
}

} // verus!
