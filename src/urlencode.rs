//! Percent-encoding of text for URL query values, and its inverse.
//!
//! Encoding works on the UTF-8 bytes of the text: ASCII letters and digits
//! stand for themselves, every other byte becomes `%` and two lower-case hex
//! digits.

use vstd::prelude::*;
use vstd::utf8::*;
use vstd::string::*;
use crate::text::push_char;

verus! {

/// ASCII letters and digits, the bytes that are kept as they are.
pub open spec fn is_alnum(b: u8) -> bool {
    (48 <= b <= 57) || (65 <= b <= 90) || (97 <= b <= 122)
}

/// The lower-case hex digit for `n < 16`, as an ASCII byte.
pub open spec fn hex_lower(n: u8) -> u8 {
    if n < 10 { (48 + n) as u8 } else { (87 + n) as u8 }
}

/// Whether `b` is an ASCII hex digit, in either case.
pub open spec fn is_hex(b: u8) -> bool {
    (48 <= b <= 57) || (97 <= b <= 102) || (65 <= b <= 70)
}

/// The value of the hex digit `b`.
pub open spec fn hex_value(b: u8) -> u8 {
    if 48 <= b <= 57 { (b - 48) as u8 }
    else if 97 <= b <= 102 { (b - 87) as u8 }
    else { (b - 55) as u8 }
}

/// The encoding of one byte.
pub open spec fn encode_byte(b: u8) -> Seq<u8> {
    if is_alnum(b) { seq![b] } else { seq![37u8, hex_lower(b / 16), hex_lower(b % 16)] }
}

/// The encoding of a byte sequence, byte by byte.
pub open spec fn percent_bytes(bs: Seq<u8>) -> Seq<u8>
    decreases bs.len(),
{
    if bs.len() == 0 {
        seq![]
    } else {
        encode_byte(bs[0]) + percent_bytes(bs.drop_first())
    }
}

/// Decoding: `%` followed by two hex digits is one byte; any other byte
/// stands for itself.
pub open spec fn percent_decode_bytes(bs: Seq<u8>) -> Seq<u8>
    decreases bs.len(),
{
    if bs.len() == 0 {
        seq![]
    } else if bs.len() >= 3 && bs[0] == 37 && is_hex(bs[1]) && is_hex(bs[2]) {
        seq![(hex_value(bs[1]) * 16 + hex_value(bs[2])) as u8] + percent_decode_bytes(
            bs.subrange(3, bs.len() as int),
        )
    } else {
        seq![bs[0]] + percent_decode_bytes(bs.drop_first())
    }
}

/// ASCII bytes read as characters.
pub open spec fn byte_chars(bs: Seq<u8>) -> Seq<char> {
    bs.map_values(|b: u8| b as char)
}

/// The percent-encoded form of a text.
pub open spec fn url_encoded(s: Seq<char>) -> Seq<char> {
    byte_chars(percent_bytes(encode_utf8(s)))
}

/// The text that a percent-encoded text stands for, if its bytes are UTF-8.
pub open spec fn url_decoded(s: Seq<char>) -> Option<Seq<char>> {
    let d = percent_decode_bytes(encode_utf8(s));
    if valid_utf8(d) {
        Some(decode_utf8(d))
    } else {
        None
    }
}

/// Relies on `String::from_utf8`: it succeeds exactly on well-formed UTF-8,
/// and the string then holds those bytes.
#[verifier::external_body]
fn string_from_utf8(v: Vec<u8>) -> (r: Option<String>)
    ensures
        r is Some <==> valid_utf8(v@),
        r matches Some(t) ==> encode_utf8(t@) == v@,
{
    String::from_utf8(v).ok()
}

fn hex_digit(n: u8) -> (r: u8)
    requires
        n < 16,
    ensures
        r == hex_lower(n),
{
    if n < 10 { 48 + n } else { 87 + n }
}

fn hex_digit_value(b: u8) -> (r: u8)
    requires
        is_hex(b),
    ensures
        r == hex_value(b),
{
    if 48 <= b && b <= 57 { b - 48 } else if 97 <= b && b <= 102 { b - 87 } else { b - 55 }
}

fn is_hex_byte(b: u8) -> (r: bool)
    ensures
        r == is_hex(b),
{
    (48 <= b && b <= 57) || (97 <= b && b <= 102) || (65 <= b && b <= 70)
}

proof fn lemma_byte_chars_concat(a: Seq<u8>, b: Seq<u8>)
    ensures
        byte_chars(a + b) == byte_chars(a) + byte_chars(b),
{
    assert(byte_chars(a + b) =~= byte_chars(a) + byte_chars(b));
}

/// Percent-encodes `s`.
pub fn url_encode(s: &str) -> (r: String)
    ensures
        r@ == url_encoded(s@),
{
    let bytes = s.as_bytes();
    let ghost bs = bytes@;
    let n = bytes.len();
    let mut r = String::new();
    let mut i: usize = 0;
    assert(bs.subrange(0, n as int) =~= bs);
    while i < n
        invariant
            bs == bytes@,
            bs == encode_utf8(s@),
            n == bs.len(),
            i <= n,
            r@ + byte_chars(percent_bytes(bs.subrange(i as int, n as int))) == url_encoded(s@),
        decreases n - i,
    {
        let b = bytes[i];
        let ghost rest = bs.subrange(i as int, n as int);
        proof {
            assert(rest.drop_first() =~= bs.subrange(i + 1, n as int));
            lemma_byte_chars_concat(encode_byte(b), percent_bytes(rest.drop_first()));
        }
        if (48 <= b && b <= 57) || (65 <= b && b <= 90) || (97 <= b && b <= 122) {
            push_char(&mut r, b as char);
            assert(byte_chars(encode_byte(b)) =~= seq![b as char]);
        } else {
            push_char(&mut r, '%');
            push_char(&mut r, hex_digit(b / 16) as char);
            push_char(&mut r, hex_digit(b % 16) as char);
            assert(byte_chars(encode_byte(b)) =~= seq!['%', hex_lower(b / 16) as char, hex_lower(b % 16) as char]);
        }
        i = i + 1;
    }
    assert(bs.subrange(n as int, n as int) =~= Seq::<u8>::empty());
    assert(byte_chars(Seq::<u8>::empty()) =~= Seq::<char>::empty());
    assert(r@ =~= url_encoded(s@));
    r
}

/// Decodes a percent-encoded `s`; `None` where the decoded bytes are not
/// well-formed UTF-8.
pub fn url_decode(s: &str) -> (r: Option<String>)
    ensures
        r matches Some(t) ==> url_decoded(s@) == Some(t@),
        r is None ==> url_decoded(s@) is None,
{
    let bytes = s.as_bytes();
    let ghost bs = bytes@;
    let n = bytes.len();
    let mut out: Vec<u8> = Vec::new();
    let mut i: usize = 0;
    assert(bs.subrange(0, n as int) =~= bs);
    while i < n
        invariant
            bs == bytes@,
            bs == encode_utf8(s@),
            n == bs.len(),
            i <= n,
            out@ + percent_decode_bytes(bs.subrange(i as int, n as int)) == percent_decode_bytes(bs),
        decreases n - i,
    {
        let ghost rest = bs.subrange(i as int, n as int);
        if n - i > 2 && bytes[i] == 37 && is_hex_byte(bytes[i + 1]) && is_hex_byte(bytes[i + 2]) {
            let v = hex_digit_value(bytes[i + 1]) * 16 + hex_digit_value(bytes[i + 2]);
            let ghost before = out@;
            out.push(v);
            proof {
                assert(rest.subrange(3, rest.len() as int) =~= bs.subrange(i + 3, n as int));
                assert(out@ + percent_decode_bytes(bs.subrange(i + 3, n as int)) =~= before + percent_decode_bytes(rest));
            }
            i = i + 3;
        } else {
            let ghost before = out@;
            out.push(bytes[i]);
            proof {
                assert(rest.drop_first() =~= bs.subrange(i + 1, n as int));
                assert(out@ + percent_decode_bytes(bs.subrange(i + 1, n as int)) =~= before + percent_decode_bytes(rest));
            }
            i = i + 1;
        }
    }
    assert(bs.subrange(n as int, n as int) =~= Seq::<u8>::empty());
    assert(out@ =~= percent_decode_bytes(bs));
    let r = string_from_utf8(out);
    proof {
        if r is Some {
            encode_utf8_decode_utf8(r->Some_0@);
        }
    }
    r
}

proof fn lemma_low_byte(v: u32, b: u8)
    requires
        v == b as u32,
        b < 128,
    ensures
        (v & 0x7F) as u8 == b,
        v <= 0x7F,
{
    assert((v & 0x7F) as u8 == b && v <= 0x7F) by (bit_vector)
        requires
            v == b as u32,
            b < 128,
    ;
}

proof fn lemma_ascii_utf8(bs: Seq<u8>)
    requires
        forall|i: int| 0 <= i < bs.len() ==> bs[i] < 128,
    ensures
        encode_utf8(byte_chars(bs)) == bs,
    decreases bs.len(),
{
    if bs.len() > 0 {
        assert(byte_chars(bs).drop_first() =~= byte_chars(bs.drop_first()));
        lemma_ascii_utf8(bs.drop_first());
        let v = (bs[0] as char) as u32;
        lemma_low_byte(v, bs[0]);
        assert(encode_scalar(v) =~= seq![bs[0]]);
        assert(encode_utf8(byte_chars(bs)) =~= bs);
    }
}

proof fn lemma_percent_ascii(bs: Seq<u8>)
    ensures
        forall|i: int| 0 <= i < percent_bytes(bs).len() ==> percent_bytes(bs)[i] < 128,
    decreases bs.len(),
{
    if bs.len() > 0 {
        lemma_percent_ascii(bs.drop_first());
        let e = encode_byte(bs[0]);
        let rest = percent_bytes(bs.drop_first());
        assert(forall|i: int| 0 <= i < e.len() ==> e[i] < 128);
        assert forall|i: int| 0 <= i < percent_bytes(bs).len() implies percent_bytes(bs)[i] < 128 by {
            if i >= e.len() {
                assert(percent_bytes(bs)[i] == rest[i - e.len()]);
            }
        }
    }
}

proof fn lemma_decode_percent(bs: Seq<u8>)
    ensures
        percent_decode_bytes(percent_bytes(bs)) == bs,
    decreases bs.len(),
{
    if bs.len() > 0 {
        let b = bs[0];
        let rest = percent_bytes(bs.drop_first());
        lemma_decode_percent(bs.drop_first());
        let e = percent_bytes(bs);
        if is_alnum(b) {
            assert(e.drop_first() =~= rest);
        } else {
            assert(e.subrange(3, e.len() as int) =~= rest);
            assert(hex_value(hex_lower(b / 16)) * 16 + hex_value(hex_lower(b % 16)) == b);
        }
        assert(percent_decode_bytes(e) =~= bs);
    }
}

/// Decoding the percent-encoded form of any text gives that text back.
pub proof fn lemma_url_round_trip(s: Seq<char>)
    ensures
        url_decoded(url_encoded(s)) == Some(s),
{
    let bs = encode_utf8(s);
    lemma_percent_ascii(bs);
    lemma_ascii_utf8(percent_bytes(bs));
    lemma_decode_percent(bs);
    encode_utf8_valid_utf8(s);
    encode_utf8_decode_utf8(s);
}

} // verus!
