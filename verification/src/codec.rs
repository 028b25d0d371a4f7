//! Text encodings for keys: lowercase hexadecimal and standard Base64.
//!
//! Both encodings are specified exactly, character by character, and each is
//! proved lossless: decoding an encoded byte sequence yields the original
//! bytes.

use base64::Engine;
use vstd::prelude::*;

verus! {

/// The text rendering chosen for a key.
pub enum EncodingFormat {
    Hex,
    Base64,
}

/// The lowercase hexadecimal digit with value `n`.
pub open spec fn hex_digit(n: int) -> char {
    if n == 0 {
        '0'
    } else if n == 1 {
        '1'
    } else if n == 2 {
        '2'
    } else if n == 3 {
        '3'
    } else if n == 4 {
        '4'
    } else if n == 5 {
        '5'
    } else if n == 6 {
        '6'
    } else if n == 7 {
        '7'
    } else if n == 8 {
        '8'
    } else if n == 9 {
        '9'
    } else if n == 10 {
        'a'
    } else if n == 11 {
        'b'
    } else if n == 12 {
        'c'
    } else if n == 13 {
        'd'
    } else if n == 14 {
        'e'
    } else {
        'f'
    }
}

/// The value of a lowercase hexadecimal digit; 16 for any other character.
pub open spec fn hex_digit_value(c: char) -> int {
    if c == '0' {
        0
    } else if c == '1' {
        1
    } else if c == '2' {
        2
    } else if c == '3' {
        3
    } else if c == '4' {
        4
    } else if c == '5' {
        5
    } else if c == '6' {
        6
    } else if c == '7' {
        7
    } else if c == '8' {
        8
    } else if c == '9' {
        9
    } else if c == 'a' {
        10
    } else if c == 'b' {
        11
    } else if c == 'c' {
        12
    } else if c == 'd' {
        13
    } else if c == 'e' {
        14
    } else if c == 'f' {
        15
    } else {
        16
    }
}

/// Lowercase hexadecimal rendering of a byte sequence: two digits per byte,
/// high nibble first.
pub open spec fn spec_hex_encode(b: Seq<u8>) -> Seq<char>
    decreases b.len(),
{
    if b.len() == 0 {
        Seq::empty()
    } else {
        seq![hex_digit(b[0] as int / 16), hex_digit(b[0] as int % 16)] + spec_hex_encode(b.skip(1))
    }
}

/// The bytes read back from a hexadecimal rendering, two digits at a time.
pub open spec fn spec_hex_decode(s: Seq<char>) -> Seq<u8>
    decreases s.len(),
{
    if s.len() < 2 {
        Seq::empty()
    } else {
        seq![(hex_digit_value(s[0]) * 16 + hex_digit_value(s[1])) as u8] + spec_hex_decode(
            s.skip(2),
        )
    }
}

proof fn lemma_hex_digit_value(n: int)
    requires
        0 <= n < 16,
    ensures
        hex_digit_value(hex_digit(n)) == n,
{
}

/// The hexadecimal rendering has exactly two characters per byte.
pub proof fn lemma_hex_encode_len(b: Seq<u8>)
    ensures
        spec_hex_encode(b).len() == 2 * b.len(),
    decreases b.len(),
{
    if b.len() > 0 {
        lemma_hex_encode_len(b.skip(1));
    }
}

/// Hexadecimal encoding is lossless: decoding the rendering of any byte
/// sequence yields that sequence again.
pub proof fn lemma_hex_round_trip(b: Seq<u8>)
    ensures
        spec_hex_decode(spec_hex_encode(b)) == b,
    decreases b.len(),
{
    if b.len() == 0 {
        assert(spec_hex_decode(spec_hex_encode(b)) =~= b);
    } else {
        let s = spec_hex_encode(b);
        let rest = spec_hex_encode(b.skip(1));
        lemma_hex_encode_len(b.skip(1));
        lemma_hex_round_trip(b.skip(1));
        let b0 = b[0] as int;
        vstd::arithmetic::div_mod::lemma_fundamental_div_mod(b0, 16);
        lemma_hex_digit_value(b0 / 16);
        lemma_hex_digit_value(b0 % 16);
        assert(s[0] == hex_digit(b0 / 16) && s[1] == hex_digit(b0 % 16));
        assert(s.skip(2) =~= rest);
        assert(spec_hex_decode(s) =~= b);
    }
}

/// Relies on hex::encode: two lowercase hexadecimal digits for each input
/// byte, high nibble first.
#[verifier::external_body]
pub(crate) fn to_hex(bytes: &Vec<u8>) -> (r: String)
    ensures
        r@ == spec_hex_encode(bytes@),
{
    hex::encode(bytes)
}

/// The encoding of a key under the chosen format.
pub open spec fn spec_encoded(b: Seq<u8>, format: EncodingFormat) -> Seq<char> {
    match format {
        EncodingFormat::Hex => spec_hex_encode(b),
        EncodingFormat::Base64 => spec_base64_encode(b),
    }
}

/// Encodes a key as text in the requested format.  Both formats are total:
/// the result is always `Ok`, and its contents are the exact hexadecimal or
/// Base64 rendering of the key.
pub fn encode_key(key: Vec<u8>, format: EncodingFormat) -> (r: Result<String, String>)
    ensures
        r is Ok,
        r->Ok_0@ == spec_encoded(key@, format),
{
    match format {
        EncodingFormat::Hex => Ok(to_hex(&key)),
        EncodingFormat::Base64 => Ok(to_base64(&key)),
    }
}

/// The character of the standard Base64 alphabet with value `n`.
pub open spec fn base64_digit(n: int) -> char {
    if n == 0 {
        'A'
    } else if n == 1 {
        'B'
    } else if n == 2 {
        'C'
    } else if n == 3 {
        'D'
    } else if n == 4 {
        'E'
    } else if n == 5 {
        'F'
    } else if n == 6 {
        'G'
    } else if n == 7 {
        'H'
    } else if n == 8 {
        'I'
    } else if n == 9 {
        'J'
    } else if n == 10 {
        'K'
    } else if n == 11 {
        'L'
    } else if n == 12 {
        'M'
    } else if n == 13 {
        'N'
    } else if n == 14 {
        'O'
    } else if n == 15 {
        'P'
    } else if n == 16 {
        'Q'
    } else if n == 17 {
        'R'
    } else if n == 18 {
        'S'
    } else if n == 19 {
        'T'
    } else if n == 20 {
        'U'
    } else if n == 21 {
        'V'
    } else if n == 22 {
        'W'
    } else if n == 23 {
        'X'
    } else if n == 24 {
        'Y'
    } else if n == 25 {
        'Z'
    } else if n == 26 {
        'a'
    } else if n == 27 {
        'b'
    } else if n == 28 {
        'c'
    } else if n == 29 {
        'd'
    } else if n == 30 {
        'e'
    } else if n == 31 {
        'f'
    } else if n == 32 {
        'g'
    } else if n == 33 {
        'h'
    } else if n == 34 {
        'i'
    } else if n == 35 {
        'j'
    } else if n == 36 {
        'k'
    } else if n == 37 {
        'l'
    } else if n == 38 {
        'm'
    } else if n == 39 {
        'n'
    } else if n == 40 {
        'o'
    } else if n == 41 {
        'p'
    } else if n == 42 {
        'q'
    } else if n == 43 {
        'r'
    } else if n == 44 {
        's'
    } else if n == 45 {
        't'
    } else if n == 46 {
        'u'
    } else if n == 47 {
        'v'
    } else if n == 48 {
        'w'
    } else if n == 49 {
        'x'
    } else if n == 50 {
        'y'
    } else if n == 51 {
        'z'
    } else if n == 52 {
        '0'
    } else if n == 53 {
        '1'
    } else if n == 54 {
        '2'
    } else if n == 55 {
        '3'
    } else if n == 56 {
        '4'
    } else if n == 57 {
        '5'
    } else if n == 58 {
        '6'
    } else if n == 59 {
        '7'
    } else if n == 60 {
        '8'
    } else if n == 61 {
        '9'
    } else if n == 62 {
        '+'
    } else {
        '/'
    }
}

/// The value of a standard Base64 alphabet character; 64 for any other
/// character, the padding character `'='` included.
pub open spec fn base64_digit_value(c: char) -> int {
    if c == 'A' {
        0
    } else if c == 'B' {
        1
    } else if c == 'C' {
        2
    } else if c == 'D' {
        3
    } else if c == 'E' {
        4
    } else if c == 'F' {
        5
    } else if c == 'G' {
        6
    } else if c == 'H' {
        7
    } else if c == 'I' {
        8
    } else if c == 'J' {
        9
    } else if c == 'K' {
        10
    } else if c == 'L' {
        11
    } else if c == 'M' {
        12
    } else if c == 'N' {
        13
    } else if c == 'O' {
        14
    } else if c == 'P' {
        15
    } else if c == 'Q' {
        16
    } else if c == 'R' {
        17
    } else if c == 'S' {
        18
    } else if c == 'T' {
        19
    } else if c == 'U' {
        20
    } else if c == 'V' {
        21
    } else if c == 'W' {
        22
    } else if c == 'X' {
        23
    } else if c == 'Y' {
        24
    } else if c == 'Z' {
        25
    } else if c == 'a' {
        26
    } else if c == 'b' {
        27
    } else if c == 'c' {
        28
    } else if c == 'd' {
        29
    } else if c == 'e' {
        30
    } else if c == 'f' {
        31
    } else if c == 'g' {
        32
    } else if c == 'h' {
        33
    } else if c == 'i' {
        34
    } else if c == 'j' {
        35
    } else if c == 'k' {
        36
    } else if c == 'l' {
        37
    } else if c == 'm' {
        38
    } else if c == 'n' {
        39
    } else if c == 'o' {
        40
    } else if c == 'p' {
        41
    } else if c == 'q' {
        42
    } else if c == 'r' {
        43
    } else if c == 's' {
        44
    } else if c == 't' {
        45
    } else if c == 'u' {
        46
    } else if c == 'v' {
        47
    } else if c == 'w' {
        48
    } else if c == 'x' {
        49
    } else if c == 'y' {
        50
    } else if c == 'z' {
        51
    } else if c == '0' {
        52
    } else if c == '1' {
        53
    } else if c == '2' {
        54
    } else if c == '3' {
        55
    } else if c == '4' {
        56
    } else if c == '5' {
        57
    } else if c == '6' {
        58
    } else if c == '7' {
        59
    } else if c == '8' {
        60
    } else if c == '9' {
        61
    } else if c == '+' {
        62
    } else if c == '/' {
        63
    } else {
        64
    }
}

/// Standard Base64 rendering of a byte sequence, RFC 4648 section 4: each
/// group of three bytes becomes four alphabet characters; a final group of
/// one or two bytes is padded with `'='` to four characters.
pub open spec fn spec_base64_encode(b: Seq<u8>) -> Seq<char>
    decreases b.len(),
{
    if b.len() == 0 {
        Seq::empty()
    } else if b.len() == 1 {
        seq![
            base64_digit(b[0] as int / 4),
            base64_digit((b[0] as int % 4) * 16),
            '=',
            '=',
        ]
    } else if b.len() == 2 {
        seq![
            base64_digit(b[0] as int / 4),
            base64_digit((b[0] as int % 4) * 16 + b[1] as int / 16),
            base64_digit((b[1] as int % 16) * 4),
            '=',
        ]
    } else {
        seq![
            base64_digit(b[0] as int / 4),
            base64_digit((b[0] as int % 4) * 16 + b[1] as int / 16),
            base64_digit((b[1] as int % 16) * 4 + b[2] as int / 64),
            base64_digit(b[2] as int % 64),
        ] + spec_base64_encode(b.skip(3))
    }
}

/// The bytes read back from a standard Base64 rendering, four characters at
/// a time; `'='` padding in the third or fourth position marks a final group
/// of one or two bytes.
pub open spec fn spec_base64_decode(s: Seq<char>) -> Seq<u8>
    decreases s.len(),
{
    if s.len() < 4 {
        Seq::empty()
    } else {
        let v0 = base64_digit_value(s[0]);
        let v1 = base64_digit_value(s[1]);
        let v2 = base64_digit_value(s[2]);
        let v3 = base64_digit_value(s[3]);
        if s[2] == '=' {
            seq![(v0 * 4 + v1 / 16) as u8]
        } else if s[3] == '=' {
            seq![(v0 * 4 + v1 / 16) as u8, ((v1 % 16) * 16 + v2 / 4) as u8]
        } else {
            seq![
                (v0 * 4 + v1 / 16) as u8,
                ((v1 % 16) * 16 + v2 / 4) as u8,
                ((v2 % 4) * 64 + v3) as u8,
            ] + spec_base64_decode(s.skip(4))
        }
    }
}

proof fn lemma_base64_digit_value(n: int)
    requires
        0 <= n < 64,
    ensures
        base64_digit_value(base64_digit(n)) == n,
        base64_digit(n) != '=',
{
}

/// Relies on base64::engine::general_purpose::STANDARD.encode: the RFC 4648
/// standard alphabet with `'='` padding.
#[verifier::external_body]
pub(crate) fn to_base64(bytes: &Vec<u8>) -> (r: String)
    ensures
        r@ == spec_base64_encode(bytes@),
{
    base64::engine::general_purpose::STANDARD.encode(bytes)
}

/// The Base64 rendering has four characters for every started group of
/// three bytes.
pub proof fn lemma_base64_encode_len(b: Seq<u8>)
    ensures
        spec_base64_encode(b).len() == 4 * ((b.len() + 2) / 3),
    decreases b.len(),
{
    if b.len() > 2 {
        lemma_base64_encode_len(b.skip(3));
    }
}

/// Base64 encoding is lossless: decoding the rendering of any byte sequence
/// yields that sequence again.
pub proof fn lemma_base64_round_trip(b: Seq<u8>)
    ensures
        spec_base64_decode(spec_base64_encode(b)) == b,
    decreases b.len(),
{
    if b.len() == 0 {
        assert(spec_base64_decode(spec_base64_encode(b)) =~= b);
    } else if b.len() == 1 {
        let b0 = b[0] as int;
        lemma_base64_digit_value(b0 / 4);
        lemma_base64_digit_value((b0 % 4) * 16);
        let s = spec_base64_encode(b);
        assert(base64_digit_value(s[0]) * 4 + base64_digit_value(s[1]) / 16 == b0);
        assert(spec_base64_decode(s) =~= b);
    } else if b.len() == 2 {
        let b0 = b[0] as int;
        let b1 = b[1] as int;
        lemma_base64_digit_value(b0 / 4);
        lemma_base64_digit_value((b0 % 4) * 16 + b1 / 16);
        lemma_base64_digit_value((b1 % 16) * 4);
        let s = spec_base64_encode(b);
        assert(base64_digit_value(s[0]) * 4 + base64_digit_value(s[1]) / 16 == b0);
        assert((base64_digit_value(s[1]) % 16) * 16 + base64_digit_value(s[2]) / 4 == b1);
        assert(spec_base64_decode(s) =~= b);
    } else {
        let b0 = b[0] as int;
        let b1 = b[1] as int;
        let b2 = b[2] as int;
        lemma_base64_digit_value(b0 / 4);
        lemma_base64_digit_value((b0 % 4) * 16 + b1 / 16);
        lemma_base64_digit_value((b1 % 16) * 4 + b2 / 64);
        lemma_base64_digit_value(b2 % 64);
        lemma_base64_round_trip(b.skip(3));
        let s = spec_base64_encode(b);
        let rest = spec_base64_encode(b.skip(3));
        assert(base64_digit_value(s[0]) * 4 + base64_digit_value(s[1]) / 16 == b0);
        assert((base64_digit_value(s[1]) % 16) * 16 + base64_digit_value(s[2]) / 4 == b1);
        assert((base64_digit_value(s[2]) % 4) * 64 + base64_digit_value(s[3]) == b2);
        assert(s.skip(4) =~= rest);
        assert(spec_base64_decode(s) =~= b);
    }
}

} // verus!

