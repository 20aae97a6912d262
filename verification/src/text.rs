//! Decimal and hexadecimal rendering of numbers inside diagnostic text.

use vstd::prelude::*;
use vstd::utf8::{decode_utf8, encode_utf8, valid_utf8};

verus! {

/// The character of a decimal digit `d < 10`.
pub open spec fn digit_char(d: nat) -> char {
    (48 + d) as char
}

/// The decimal digits of `n`, most significant first, without leading zeros.
pub open spec fn decimal_digits(n: nat) -> Seq<char>
    decreases n,
{
    if n < 10 {
        seq![digit_char(n)]
    } else {
        decimal_digits(n / 10).push(digit_char(n % 10))
    }
}

/// The bytes of ASCII characters.
pub open spec fn ascii_bytes(s: Seq<char>) -> Seq<u8> {
    s.map_values(|c: char| c as u8)
}

/// Every digit of `n` is an ASCII decimal digit.
proof fn lemma_decimal_digits_ascii(n: nat)
    ensures
        forall|i: int|
            0 <= i < decimal_digits(n).len() ==> '0' <= #[trigger] decimal_digits(n)[i] <= '9',
    decreases n,
{
    let s = decimal_digits(n);
    let d = n % 10;
    assert(48 <= (48 + d) as char as int <= 57);
    if n >= 10 {
        lemma_decimal_digits_ascii(n / 10);
        let init = decimal_digits(n / 10);
        assert(s == init.push(digit_char(d)));
        assert forall|i: int| 0 <= i < s.len() implies '0' <= #[trigger] s[i] <= '9' by {
            if i < init.len() {
                assert(s[i] == init[i]);
            } else {
                assert(s[i] == digit_char(d));
            }
        }
    } else {
        assert(s == seq![digit_char(n)]);
        assert(d == n);
        assert forall|i: int| 0 <= i < s.len() implies '0' <= #[trigger] s[i] <= '9' by {
            assert(s[i] == digit_char(n));
        }
    }
}

/// The string of ASCII characters `s`, given their bytes.
fn ascii_string(bytes: &Vec<u8>, Ghost(s): Ghost<Seq<char>>) -> (r: String)
    requires
        vstd::utf8::is_ascii_chars(s),
        bytes@ == ascii_bytes(s),
    ensures
        r@ == s,
{
    proof {
        vstd::utf8::is_ascii_chars_encode_utf8(s);
        assert(encode_utf8(s) =~= bytes@);
        vstd::utf8::encode_utf8_valid_utf8(s);
        vstd::utf8::encode_utf8_decode_utf8(s);
    }
    match string_from_utf8(bytes.as_slice()) {
        Ok(t) => t,
        Err(_) => {
            proof {
                assert(false);
            }
            String::new()
        },
    }
}

/// Appends the bytes of the decimal digits of `n`.
fn push_decimal(v: &mut Vec<u8>, n: u64)
    ensures
        final(v)@ == old(v)@ + ascii_bytes(decimal_digits(n as nat)),
    decreases n,
{
    if n >= 10 {
        push_decimal(v, n / 10);
    }
    let d: u8 = (n % 10) as u8;
    let c: u8 = 48 + d;
    v.push(c);
    proof {
        let digits = decimal_digits(n as nat);
        if n >= 10 {
            assert(digits == decimal_digits((n / 10) as nat).push(digit_char((n % 10) as nat)));
            assert(ascii_bytes(digits) =~= ascii_bytes(decimal_digits((n / 10) as nat)).push(c));
        } else {
            assert(digits == seq![digit_char(n as nat)]);
            assert(ascii_bytes(digits) =~= seq![c]);
        }
        assert(v@ =~= old(v)@ + ascii_bytes(digits));
    }
}

/// The decimal digits of `n`.
pub fn decimal(n: u64) -> (r: String)
    ensures
        r@ == decimal_digits(n as nat),
{
    let mut v: Vec<u8> = Vec::new();
    push_decimal(&mut v, n);
    proof {
        lemma_decimal_digits_ascii(n as nat);
        assert(v@ =~= ascii_bytes(decimal_digits(n as nat)));
    }
    ascii_string(&v, Ghost(decimal_digits(n as nat)))
}

/// `prefix`, then the decimal digits of `n`, then `suffix`.
pub fn text_with_number(prefix: &str, n: u64, suffix: &str) -> (r: String)
    ensures
        r@ == prefix@ + decimal_digits(n as nat) + suffix@,
{
    let mut r = concat_text(prefix, decimal(n).as_str());
    r.append(suffix);
    r
}

/// `a`, the decimal digits of `x`, `b`, then the decimal digits of `y`.
pub fn text_with_numbers(a: &str, x: u64, b: &str, y: u64) -> (r: String)
    ensures
        r@ == a@ + decimal_digits(x as nat) + b@ + decimal_digits(y as nat),
{
    let mut r = text_with_number(a, x, b);
    r.append(decimal(y).as_str());
    r
}

/// The character of a hex digit `d < 16`, uppercase.
pub open spec fn upper_hex_digit(d: nat) -> char {
    if d < 10 {
        (48 + d) as char
    } else {
        (55 + d) as char
    }
}

/// The four uppercase hex digits of `v`, most significant first.
pub open spec fn upper_hex4(v: u16) -> Seq<char> {
    seq![
        upper_hex_digit((v / 4096) as nat),
        upper_hex_digit((v / 256 % 16) as nat),
        upper_hex_digit((v / 16 % 16) as nat),
        upper_hex_digit((v % 16) as nat),
    ]
}

/// The byte of the uppercase hex digit `d < 16`.
fn upper_hex_byte(d: u16) -> (r: u8)
    requires
        d < 16,
    ensures
        r == upper_hex_digit(d as nat) as u8,
        r < 128,
        '0' <= upper_hex_digit(d as nat) <= 'F',
{
    if d < 10 {
        48 + d as u8
    } else {
        55 + d as u8
    }
}

/// `prefix`, then `v` as four uppercase hex digits.
pub fn text_with_hex4(prefix: &str, v: u16) -> (r: String)
    ensures
        r@ == prefix@ + upper_hex4(v),
{
    let mut bytes: Vec<u8> = Vec::new();
    bytes.push(upper_hex_byte(v / 4096));
    bytes.push(upper_hex_byte(v / 256 % 16));
    bytes.push(upper_hex_byte(v / 16 % 16));
    bytes.push(upper_hex_byte(v % 16));
    proof {
        assert(bytes@ =~= ascii_bytes(upper_hex4(v)));
    }
    let digits = ascii_string(&bytes, Ghost(upper_hex4(v)));
    concat_text(prefix, digits.as_str())
}

/// The text of `s` followed by that of `t`.
pub fn concat_text(s: &str, t: &str) -> (r: String)
    ensures
        r@ == s@ + t@,
{
    let mut r = s.to_owned();
    r.append(t);
    r
}

/// What `std`'s UTF-8 validation reports for bytes that are not UTF-8, as
/// text.
pub uninterp spec fn utf8_error_text(bytes: Seq<u8>) -> Seq<char>;

/// The string whose UTF-8 encoding is `bytes`, or the text of the error.
///
/// Trusted: calls `String::from_utf8`, which the standard library documents
/// to succeed exactly on valid UTF-8 (as `valid_utf8` defines it) with the
/// characters those bytes encode. The error's text, from its `Display`, is
/// named and not stated.
#[verifier::external_body]
pub fn string_from_utf8(bytes: &[u8]) -> (r: Result<String, String>)
    ensures
        match r {
            Ok(s) => valid_utf8(bytes@) && s@ == decode_utf8(bytes@),
            Err(e) => !valid_utf8(bytes@) && e@ == utf8_error_text(bytes@),
        },
{
    match String::from_utf8(bytes.to_vec()) {
        Ok(s) => Ok(s),
        Err(e) => Err(e.to_string()),
    }
}

/// The UTF-8 encoding of `s`.
pub fn utf8_bytes(s: &str) -> (r: Vec<u8>)
    ensures
        r@ == encode_utf8(s@),
{
    let b = s.as_bytes();
    let mut r: Vec<u8> = Vec::new();
    crate::bytes::extend_bytes(&mut r, b);
    assert(r@ =~= encode_utf8(s@));
    r
}

/// The characters `std`'s lossy UTF-8 decoding gives for `bytes`: invalid
/// sequences replaced by U+FFFD.
pub uninterp spec fn utf8_lossy(bytes: Seq<u8>) -> Seq<char>;

/// Decodes `bytes` as UTF-8, replacing invalid sequences.
///
/// Trusted: calls `String::from_utf8_lossy` and takes the owned string. The
/// result is named; the standard library documents that valid UTF-8 decodes
/// to exactly its characters.
#[verifier::external_body]
pub fn string_from_utf8_lossy(bytes: &[u8]) -> (r: String)
    ensures
        r@ == utf8_lossy(bytes@),
        valid_utf8(bytes@) ==> r@ == decode_utf8(bytes@),
{
    String::from_utf8_lossy(bytes).into_owned()
}

} // verus!
