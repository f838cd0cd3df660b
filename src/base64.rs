//! Unpadded base64 with the URL-safe alphabet: the payload encoding of every
//! canonical identifier.
//!
//! `b64_enc` is the encoding; `b64_dec` reads a text back group by group.
//! `lemma_dec_enc` shows that reading an encoding gives back the bytes, which
//! is what lets `decode_payload` accept exactly the canonical encodings.
use vstd::prelude::*;
use vstd::string::*;

verus! {

/// The 64 digits in order of value.
pub const BASE64_URL_ALPHABET: &'static str =
    "ABCDEFGHIJKLMNOPQRSTUVWXYZabcdefghijklmnopqrstuvwxyz0123456789-_";

/// Character code of the digit for a 6-bit value.
pub open spec fn digit_code(v: int) -> int {
    if v < 26 {
        65 + v
    } else if v < 52 {
        71 + v
    } else if v < 62 {
        v - 4
    } else if v == 62 {
        45
    } else {
        95
    }
}

/// The digit for a 6-bit value.
pub open spec fn b64_char(v: u8) -> char {
    digit_code(v as int) as char
}

/// The 6-bit value of a digit; 0 for a character that is not a digit.
pub open spec fn sextet_of(c: char) -> u8 {
    let x = c as int;
    if 65 <= x <= 90 {
        (x - 65) as u8
    } else if 97 <= x <= 122 {
        (x - 71) as u8
    } else if 48 <= x <= 57 {
        (x + 4) as u8
    } else if x == 45 {
        62
    } else if x == 95 {
        63
    } else {
        0
    }
}

// The four 6-bit values of a group of three bytes; a short last group uses
// zero for the missing bytes.
pub open spec fn hi6(a: u8) -> u8 {
    a >> 2u8
}

pub open spec fn mid6a(a: u8, b: u8) -> u8 {
    ((a & 3u8) << 4u8) | (b >> 4u8)
}

pub open spec fn mid6b(b: u8, c: u8) -> u8 {
    ((b & 15u8) << 2u8) | (c >> 6u8)
}

pub open spec fn lo6(c: u8) -> u8 {
    c & 63u8
}

// The three bytes rebuilt from four 6-bit values.
pub open spec fn byte0(x0: u8, x1: u8) -> u8 {
    ((x0 << 2u8) | (x1 >> 4u8)) as u8
}

pub open spec fn byte1(x1: u8, x2: u8) -> u8 {
    (((x1 & 15u8) << 4u8) | (x2 >> 2u8)) as u8
}

pub open spec fn byte2(x2: u8, x3: u8) -> u8 {
    (((x2 & 3u8) << 6u8) | x3) as u8
}

/// Unpadded base64url encoding of `b`.
pub open spec fn b64_enc(b: Seq<u8>) -> Seq<char>
    decreases b.len(),
{
    if b.len() == 0 {
        Seq::empty()
    } else if b.len() == 1 {
        seq![b64_char(hi6(b[0])), b64_char(mid6a(b[0], 0u8))]
    } else if b.len() == 2 {
        seq![b64_char(hi6(b[0])), b64_char(mid6a(b[0], b[1])), b64_char(mid6b(b[1], 0u8))]
    } else {
        seq![
            b64_char(hi6(b[0])),
            b64_char(mid6a(b[0], b[1])),
            b64_char(mid6b(b[1], b[2])),
            b64_char(lo6(b[2])),
        ] + b64_enc(b.subrange(3, b.len() as int))
    }
}

/// The bytes that a text reads as, group by group, taking every character as
/// a digit. Only a text that `b64_enc` can produce reads back faithfully.
pub open spec fn b64_dec(s: Seq<char>) -> Seq<u8>
    decreases s.len(),
{
    if s.len() >= 4 {
        seq![
            byte0(sextet_of(s[0]), sextet_of(s[1])),
            byte1(sextet_of(s[1]), sextet_of(s[2])),
            byte2(sextet_of(s[2]), sextet_of(s[3])),
        ] + b64_dec(s.subrange(4, s.len() as int))
    } else if s.len() == 3 {
        seq![byte0(sextet_of(s[0]), sextet_of(s[1])), byte1(sextet_of(s[1]), sextet_of(s[2]))]
    } else if s.len() == 2 {
        seq![byte0(sextet_of(s[0]), sextet_of(s[1]))]
    } else {
        Seq::empty()
    }
}

/// Length of the encoding of `n` bytes.
pub open spec fn b64_len(n: nat) -> nat {
    4 * (n / 3) + if n % 3 == 0 {
        0
    } else {
        n % 3 + 1
    }
}

proof fn lemma_group_bits(a: u8, b: u8, c: u8)
    ensures
        hi6(a) < 64,
        mid6a(a, b) < 64,
        mid6b(b, c) < 64,
        lo6(c) < 64,
        byte0(hi6(a), mid6a(a, b)) == a,
        byte1(mid6a(a, b), mid6b(b, c)) == b,
        byte2(mid6b(b, c), lo6(c)) == c,
        mid6a(a, 0u8) == (a & 3u8) << 4u8,
        mid6b(b, 0u8) == (b & 15u8) << 2u8,
{
    assert(((a & 3u8) << 4u8) | (0u8 >> 4u8) == (a & 3u8) << 4u8) by (bit_vector);
    assert(((b & 15u8) << 2u8) | (0u8 >> 6u8) == (b & 15u8) << 2u8) by (bit_vector);
    assert(a >> 2u8 < 64u8) by (bit_vector);
    assert(((a & 3u8) << 4u8) | (b >> 4u8) < 64u8) by (bit_vector);
    assert(((b & 15u8) << 2u8) | (c >> 6u8) < 64u8) by (bit_vector);
    assert(c & 63u8 < 64u8) by (bit_vector);
    assert((((a >> 2u8) << 2u8) | ((((a & 3u8) << 4u8) | (b >> 4u8)) >> 4u8)) == a)
        by (bit_vector);
    assert((((((a & 3u8) << 4u8) | (b >> 4u8)) & 15u8) << 4u8) | ((((b & 15u8) << 2u8) | (c
        >> 6u8)) >> 2u8) == b) by (bit_vector);
    assert((((((b & 15u8) << 2u8) | (c >> 6u8)) & 3u8) << 6u8) | (c & 63u8) == c)
        by (bit_vector);
}

proof fn lemma_digit(v: u8)
    requires
        v < 64,
    ensures
        sextet_of(b64_char(v)) == v,
{
}

/// Reading an encoding gives back the bytes.
pub proof fn lemma_dec_enc(b: Seq<u8>)
    ensures
        b64_dec(b64_enc(b)) == b,
        b64_enc(b).len() == b64_len(b.len()),
    decreases b.len(),
{
    if b.len() == 0 {
        assert(b64_dec(b64_enc(b)) =~= b);
    } else if b.len() == 1 {
        lemma_group_bits(b[0], 0u8, 0u8);
        lemma_digit(hi6(b[0]));
        lemma_digit(mid6a(b[0], 0u8));
        assert(b64_dec(b64_enc(b)) =~= b);
    } else if b.len() == 2 {
        lemma_group_bits(b[0], b[1], 0u8);
        lemma_digit(hi6(b[0]));
        lemma_digit(mid6a(b[0], b[1]));
        lemma_digit(mid6b(b[1], 0u8));
        assert(b64_dec(b64_enc(b)) =~= b);
    } else {
        let rest = b.subrange(3, b.len() as int);
        lemma_dec_enc(rest);
        lemma_group_bits(b[0], b[1], b[2]);
        lemma_digit(hi6(b[0]));
        lemma_digit(mid6a(b[0], b[1]));
        lemma_digit(mid6b(b[1], b[2]));
        lemma_digit(lo6(b[2]));
        let e = b64_enc(b);
        assert(e.subrange(4, e.len() as int) =~= b64_enc(rest));
        assert(b64_dec(e) =~= b);
    }
}

spec fn alphabet_from(s: Seq<char>, i: nat) -> bool
    decreases 64 - i,
{
    if i >= 64 {
        true
    } else {
        s[i as int] as int == digit_code(i as int) && alphabet_from(s, i + 1)
    }
}

proof fn lemma_alphabet_at(s: Seq<char>, i: nat, v: int)
    requires
        alphabet_from(s, i),
        i <= v < 64,
    ensures
        s[v] as int == digit_code(v),
    decreases 64 - i,
{
    if i < v {
        lemma_alphabet_at(s, i + 1, v);
    }
}

proof fn lemma_alphabet(v: u8)
    requires
        v < 64,
    ensures
        BASE64_URL_ALPHABET@.len() == 64,
        BASE64_URL_ALPHABET@[v as int] == b64_char(v),
{
    reveal_strlit("ABCDEFGHIJKLMNOPQRSTUVWXYZabcdefghijklmnopqrstuvwxyz0123456789-_");
    assert(alphabet_from(BASE64_URL_ALPHABET@, 0)) by {
        reveal_with_fuel(alphabet_from, 65);
    }
    lemma_alphabet_at(BASE64_URL_ALPHABET@, 0, v as int);
}

fn push_digit(out: &mut String, v: u8)
    requires
        v < 64,
    ensures
        final(out)@ == old(out)@.push(b64_char(v)),
{
    proof {
        lemma_alphabet(v);
    }
    let d = BASE64_URL_ALPHABET.substring_char(v as usize, v as usize + 1);
    assert(d@ =~= seq![b64_char(v)]);
    out.append(d);
}

fn digit_value(c: char) -> (r: u8)
    ensures
        r == sextet_of(c),
{
    let x = c as u32;
    if 65 <= x && x <= 90 {
        (x - 65) as u8
    } else if 97 <= x && x <= 122 {
        (x - 71) as u8
    } else if 48 <= x && x <= 57 {
        (x + 4) as u8
    } else if x == 45 {
        62
    } else if x == 95 {
        63
    } else {
        0
    }
}

/// Appends the encoding of `b[i..]` to `out`.
pub fn append_base64(b: &Vec<u8>, i: usize, out: &mut String)
    requires
        i <= b@.len(),
    ensures
        final(out)@ == old(out)@ + b64_enc(b@.subrange(i as int, b@.len() as int)),
    decreases b@.len() - i,
{
    let n = b.len();
    let ghost rest = b@.subrange(i as int, n as int);
    if i == n {
        assert(old(out)@ + b64_enc(rest) =~= old(out)@);
    } else if n - i == 1 {
        proof {
            lemma_group_bits(b[i as int], 0u8, 0u8);
        }
        push_digit(out, b[i] >> 2);
        push_digit(out, (b[i] & 3) << 4);
        assert(out@ =~= old(out)@ + b64_enc(rest));
    } else if n - i == 2 {
        proof {
            lemma_group_bits(b[i as int], b[i + 1], 0u8);
        }
        push_digit(out, b[i] >> 2);
        push_digit(out, ((b[i] & 3) << 4) | (b[i + 1] >> 4));
        push_digit(out, (b[i + 1] & 15) << 2);
        assert(out@ =~= old(out)@ + b64_enc(rest));
    } else {
        proof {
            lemma_group_bits(b[i as int], b[i + 1], b[i + 2]);
        }
        push_digit(out, b[i] >> 2);
        push_digit(out, ((b[i] & 3) << 4) | (b[i + 1] >> 4));
        push_digit(out, ((b[i + 1] & 15) << 2) | (b[i + 2] >> 6));
        push_digit(out, b[i + 2] & 63);
        append_base64(b, i + 3, out);
        assert(rest.subrange(3, rest.len() as int) =~= b@.subrange(i + 3, n as int));
        assert(out@ =~= old(out)@ + b64_enc(rest));
    }
}

/// The unpadded base64url encoding of `b`.
pub fn encode_base64(b: &Vec<u8>) -> (r: String)
    ensures
        r@ == b64_enc(b@),
{
    let mut out = String::new();
    append_base64(b, 0, &mut out);
    assert(b@.subrange(0, b@.len() as int) =~= b@);
    out
}

/// Appends what `s[i..]` reads as to `out`.
fn append_decoded(s: &str, i: usize, n: usize, out: &mut Vec<u8>)
    requires
        i <= n,
        n == s@.len(),
    ensures
        final(out)@ == old(out)@ + b64_dec(s@.subrange(i as int, n as int)),
    decreases n - i,
{
    let ghost rest = s@.subrange(i as int, n as int);
    if n - i >= 4 {
        let x0 = digit_value(s.get_char(i));
        let x1 = digit_value(s.get_char(i + 1));
        let x2 = digit_value(s.get_char(i + 2));
        let x3 = digit_value(s.get_char(i + 3));
        out.push(((x0 << 2) | (x1 >> 4)) as u8);
        out.push((((x1 & 15) << 4) | (x2 >> 2)) as u8);
        out.push((((x2 & 3) << 6) | x3) as u8);
        append_decoded(s, i + 4, n, out);
        assert(rest.subrange(4, rest.len() as int) =~= s@.subrange(i + 4, n as int));
        assert(out@ =~= old(out)@ + b64_dec(rest));
    } else if n - i == 3 {
        let x0 = digit_value(s.get_char(i));
        let x1 = digit_value(s.get_char(i + 1));
        let x2 = digit_value(s.get_char(i + 2));
        out.push(((x0 << 2) | (x1 >> 4)) as u8);
        out.push((((x1 & 15) << 4) | (x2 >> 2)) as u8);
        assert(out@ =~= old(out)@ + b64_dec(rest));
    } else if n - i == 2 {
        let x0 = digit_value(s.get_char(i));
        let x1 = digit_value(s.get_char(i + 1));
        out.push(((x0 << 2) | (x1 >> 4)) as u8);
        assert(out@ =~= old(out)@ + b64_dec(rest));
    } else {
        assert(out@ =~= old(out)@ + b64_dec(rest));
    }
}

/// The bytes whose encoding is `s`, if there are any.
pub fn decode_base64(s: &str) -> (r: Option<Vec<u8>>)
    ensures
        r matches Some(b) ==> b64_enc(b@) == s@,
        r is None ==> forall|b: Seq<u8>| #[trigger] b64_enc(b) != s@,
{
    let n = s.unicode_len();
    let mut candidate: Vec<u8> = Vec::new();
    append_decoded(s, 0, n, &mut candidate);
    assert(s@.subrange(0, n as int) =~= s@);
    let again = encode_base64(&candidate);
    let text = String::from_str(s);
    if again == text {
        Some(candidate)
    } else {
        proof {
            assert forall|b: Seq<u8>| #[trigger] b64_enc(b) != s@ by {
                if b64_enc(b) == s@ {
                    lemma_dec_enc(b);
                }
            }
        }
        None
    }
}

} // verus!
