//! The byte-level vocabulary the ledger hashes and signs over: lower-case
//! hexadecimal text, decimal text, fixed-width integers and length-framed
//! fields.
//!
//! Every encoder comes as a pair: a spec function that says what the bytes
//! are, and an executable function proved to produce exactly those bytes.

use vstd::bytes::{spec_u64_to_le_bytes, u64_to_le_bytes};
use vstd::prelude::*;
use vstd::utf8::encode_utf8;

verus! {

/// The lower-case hexadecimal digit for a nibble (`0..=15`).
pub open spec fn hex_digit(nibble: u8) -> char {
    if nibble < 10 {
        ((48 + nibble) as u8) as char
    } else {
        ((87 + nibble) as u8) as char
    }
}

/// Lower-case hexadecimal text of a byte string: two digits per byte, high
/// nibble first.
pub open spec fn hex_lower(bytes: Seq<u8>) -> Seq<char> {
    Seq::new(
        2 * bytes.len(),
        |i: int|
            if i % 2 == 0 {
                hex_digit(bytes[i / 2] / 16)
            } else {
                hex_digit(bytes[i / 2] % 16)
            },
    )
}

/// A hexadecimal digit determines its nibble.
pub proof fn lemma_hex_digit_determines_nibble(x: u8, y: u8)
    requires
        x < 16,
        y < 16,
        hex_digit(x) == hex_digit(y),
    ensures
        x == y,
{
    assert(hex_digit(x) as u32 == if x < 10 {
        48 + x
    } else {
        87 + x
    });
    assert(hex_digit(y) as u32 == if y < 10 {
        48 + y
    } else {
        87 + y
    });
}

/// Hexadecimal text determines the bytes it was made from.
pub proof fn lemma_hex_determines_bytes(a: Seq<u8>, b: Seq<u8>)
    requires
        hex_lower(a) == hex_lower(b),
    ensures
        a == b,
{
    assert(hex_lower(a).len() == 2 * a.len());
    assert(hex_lower(b).len() == 2 * b.len());
    assert forall|i: int| 0 <= i < a.len() implies a[i] == b[i] by {
        assert(hex_lower(a)[2 * i] == hex_digit(a[i] / 16));
        assert(hex_lower(b)[2 * i] == hex_digit(b[i] / 16));
        assert(hex_lower(a)[2 * i + 1] == hex_digit(a[i] % 16));
        assert(hex_lower(b)[2 * i + 1] == hex_digit(b[i] % 16));
        lemma_hex_digit_determines_nibble(a[i] / 16, b[i] / 16);
        lemma_hex_digit_determines_nibble(a[i] % 16, b[i] % 16);
    }
    assert(a =~= b);
}

/// The text made of `n` copies of the character `'0'`.
pub open spec fn zeros(n: nat) -> Seq<char> {
    Seq::new(n, |i: int| '0')
}

/// The decimal digits of `n`, most significant first; empty for zero.
pub open spec fn decimal_digits(n: nat) -> Seq<u8>
    decreases n,
{
    if n == 0 {
        Seq::empty()
    } else {
        decimal_digits(n / 10).push((48 + n % 10) as u8)
    }
}

/// The canonical decimal text of `n` as ASCII bytes: `"0"` for zero, no
/// leading zeros otherwise.
pub open spec fn decimal_text(n: nat) -> Seq<u8> {
    if n == 0 {
        seq![48u8]
    } else {
        decimal_digits(n)
    }
}

/// A signed 64-bit integer shifted into the unsigned range, so that the
/// smallest value maps to zero and order is kept.
pub open spec fn biased(value: i64) -> u64 {
    (value + 0x8000_0000_0000_0000) as u64
}

/// Eight little-endian bytes of an unsigned 64-bit integer.
pub open spec fn u64_field(value: u64) -> Seq<u8> {
    spec_u64_to_le_bytes(value)
}

/// Eight little-endian bytes of a signed 64-bit integer, biased into the
/// unsigned range.
pub open spec fn i64_field(value: i64) -> Seq<u8> {
    u64_field(biased(value))
}

/// A variable-length byte field: its length as a `u64_field`, then the bytes.
pub open spec fn bytes_field(bytes: Seq<u8>) -> Seq<u8> {
    u64_field(bytes.len() as u64) + bytes
}

/// A text field: the UTF-8 bytes of the text as a `bytes_field`.
pub open spec fn text_field(text: Seq<char>) -> Seq<u8> {
    bytes_field(encode_utf8(text))
}

/// `String::push`: the text afterwards is the text before with `c` appended
/// as its last character.
#[verifier::external_body]
fn push_char(text: &mut String, c: char)
    ensures
        final(text)@ == old(text)@.push(c),
{
    text.push(c);
}

fn hex_digit_of(nibble: u8) -> (c: char)
    requires
        nibble < 16,
    ensures
        c == hex_digit(nibble),
{
    if nibble < 10 {
        (48 + nibble) as char
    } else {
        (87 + nibble) as char
    }
}

/// Renders bytes as lower-case hexadecimal text.
pub fn to_hex(bytes: &[u8]) -> (text: String)
    ensures
        text@ == hex_lower(bytes@),
{
    let mut text = String::new();
    let mut i: usize = 0;
    while i < bytes.len()
        invariant
            i <= bytes.len(),
            text@ == hex_lower(bytes@.take(i as int)),
        decreases bytes.len() - i,
    {
        let b: u8 = bytes[i];
        push_char(&mut text, hex_digit_of(b / 16));
        push_char(&mut text, hex_digit_of(b % 16));
        i += 1;
    }
    text
}

/// The text of `n` zero characters.
pub fn zero_text(n: usize) -> (text: String)
    ensures
        text@ == zeros(n as nat),
{
    let mut text = String::new();
    let mut i: usize = 0;
    while i < n
        invariant
            i <= n,
            text@ == zeros(i as nat),
        decreases n - i,
    {
        push_char(&mut text, '0');
        i += 1;
    }
    text
}

/// Appends a copy of `source` to `out`.
pub fn append_bytes(out: &mut Vec<u8>, source: &[u8])
    ensures
        final(out)@ == old(out)@ + source@,
{
    let mut i: usize = 0;
    while i < source.len()
        invariant
            i <= source.len(),
            out@ == old(out)@ + source@.take(i as int),
        decreases source.len() - i,
    {
        out.push(source[i]);
        i += 1;
    }
}

/// Appends the canonical decimal text of `n`.
pub fn append_decimal(out: &mut Vec<u8>, n: u64)
    ensures
        final(out)@ == old(out)@ + decimal_text(n as nat),
{
    if n == 0 {
        out.push(48u8);
        return ;
    }
    let mut reversed: Vec<u8> = Vec::new();
    let mut rest: u64 = n;
    while rest > 0
        invariant
            decimal_digits(n as nat) == decimal_digits(rest as nat) + reversed@.reverse(),
        decreases rest,
    {
        let digit: u8 = 48 + (rest % 10) as u8;
        reversed.push(digit);
        rest = rest / 10;
    }
    let mut k: usize = reversed.len();
    while k > 0
        invariant
            k <= reversed.len(),
            out@ == old(out)@ + reversed@.reverse().take(reversed.len() - k),
        decreases k,
    {
        k -= 1;
        out.push(reversed[k]);
    }
}

/// The characters of an ASCII byte string.
pub open spec fn ascii_text(bytes: Seq<u8>) -> Seq<char> {
    bytes.map_values(|b: u8| b as char)
}

/// Appends the canonical decimal text of `n` to a text.
pub fn push_decimal(text: &mut String, n: u64)
    ensures
        final(text)@ == old(text)@ + ascii_text(decimal_text(n as nat)),
{
    let mut digits: Vec<u8> = Vec::new();
    append_decimal(&mut digits, n);
    let mut i: usize = 0;
    while i < digits.len()
        invariant
            i <= digits.len(),
            text@ == old(text)@ + ascii_text(digits@.take(i as int)),
        decreases digits.len() - i,
    {
        push_char(text, digits[i] as char);
        i += 1;
    }
}

/// Appends an unsigned 64-bit integer as a `u64_field`.
pub fn append_u64(out: &mut Vec<u8>, value: u64)
    ensures
        final(out)@ == old(out)@ + u64_field(value),
{
    let bytes = u64_to_le_bytes(value);
    append_bytes(out, bytes.as_slice());
}

/// Appends a signed 64-bit integer as an `i64_field`.
pub fn append_i64(out: &mut Vec<u8>, value: i64)
    ensures
        final(out)@ == old(out)@ + i64_field(value),
{
    let shifted: u64 = if value >= 0 {
        value as u64 + 0x8000_0000_0000_0000
    } else {
        (value + 0x7fff_ffff_ffff_ffff + 1) as u64
    };
    append_u64(out, shifted);
}

/// Appends a byte string as a `bytes_field`.
pub fn append_bytes_field(out: &mut Vec<u8>, bytes: &[u8])
    ensures
        final(out)@ == old(out)@ + bytes_field(bytes@),
{
    append_u64(out, bytes.len() as u64);
    append_bytes(out, bytes);
}

/// Appends a text as a `text_field`.
pub fn append_text_field(out: &mut Vec<u8>, text: &str)
    ensures
        final(out)@ == old(out)@ + text_field(text@),
{
    append_bytes_field(out, text.as_bytes());
}

} // verus!
