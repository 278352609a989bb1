//! Textual byte encodings used in persisted keys: decimal numbers and
//! lowercase hexadecimal.

use vstd::prelude::*;

verus! {

// ---------------------------------------------------------------------------
// Decimal
// ---------------------------------------------------------------------------

/// The ASCII decimal digits of `n`, most significant first.
pub open spec fn dec_digits(n: nat) -> Seq<u8>
    decreases n,
{
    if n < 10 {
        seq![(48 + n) as u8]
    } else {
        dec_digits(n / 10).push((48 + n % 10) as u8)
    }
}

/// Reversing after one more element is prepending that element.
proof fn lemma_reverse_push<A>(s: Seq<A>, x: A)
    ensures
        s.push(x).reverse() =~= seq![x] + s.reverse(),
{
}

/// Writes `n` in ASCII decimal, most significant digit first.
pub fn u128_to_dec_bytes(n: u128) -> (r: Vec<u8>)
    ensures
        r@ == dec_digits(n as nat),
{
    let mut rev: Vec<u8> = Vec::new();
    let mut m = n;
    while m >= 10
        invariant
            dec_digits(n as nat) =~= dec_digits(m as nat) + rev@.reverse(),
        decreases m,
    {
        let d = (48 + (m % 10)) as u8;
        proof {
            lemma_reverse_push(rev@, d);
            assert(dec_digits(m as nat) =~= dec_digits((m as nat) / 10) + seq![d]);
            assert(dec_digits((m as nat) / 10) + (seq![d] + rev@.reverse()) =~= (dec_digits(
                (m as nat) / 10,
            ) + seq![d]) + rev@.reverse());
        }
        rev.push(d);
        m = m / 10;
    }
    let mut r: Vec<u8> = Vec::new();
    r.push((48 + m) as u8);
    let mut i = rev.len();
    while i > 0
        invariant
            i <= rev@.len(),
            r@ =~= seq![(48 + (m as nat)) as u8] + rev@.reverse().subrange(
                0,
                rev@.len() - i,
            ),
        decreases i,
    {
        i -= 1;
        r.push(rev[i]);
        proof {
            assert(rev@.reverse().subrange(0, rev@.len() - i) =~= rev@.reverse().subrange(
                0,
                rev@.len() - i - 1,
            ).push(rev@[i as int]));
        }
    }
    proof {
        assert(rev@.reverse().subrange(0, rev@.len() as int) =~= rev@.reverse());
        assert(dec_digits(m as nat) =~= seq![(48 + (m as nat)) as u8]);
    }
    r
}

// ---------------------------------------------------------------------------
// UTF-8
// ---------------------------------------------------------------------------

/// Relies on `String::from_utf8`: it succeeds exactly on valid UTF-8 input
/// and yields the string whose encoding the input is.
#[verifier::external_body]
pub(crate) fn string_from_utf8(bytes: Vec<u8>) -> (r: Option<String>)
    ensures
        r is Some <==> vstd::utf8::valid_utf8(bytes@),
        r matches Some(s) ==> s@ == vstd::utf8::decode_utf8(bytes@),
{
    String::from_utf8(bytes).ok()
}

// ---------------------------------------------------------------------------
// Hexadecimal
// ---------------------------------------------------------------------------

/// The lowercase ASCII digit for a value below sixteen.
pub open spec fn hex_digit(v: u8) -> u8 {
    if v < 10 {
        (48 + v) as u8
    } else {
        (87 + v) as u8
    }
}

/// The lowercase ASCII hex spelling of a byte string, two digits per byte,
/// high nibble first.
pub open spec fn hex_bytes_of(b: Seq<u8>) -> Seq<u8> {
    Seq::new(
        2 * b.len(),
        |i: int|
            if i % 2 == 0 {
                hex_digit(b[i / 2] / 16)
            } else {
                hex_digit(b[i / 2] % 16)
            },
    )
}

/// Relies on `hex::encode`: it spells each input byte as two lowercase
/// hexadecimal digits, high nibble first.
#[verifier::external_body]
pub fn hex_encode_bytes(data: &[u8]) -> (r: Vec<u8>)
    ensures
        r@ == hex_bytes_of(data@),
{
    hex::encode(data).into_bytes()
}

/// The ASCII byte is a hexadecimal digit, either case.
pub open spec fn is_hex_digit_byte(c: u8) -> bool {
    (48 <= c <= 57) || (97 <= c <= 102) || (65 <= c <= 70)
}

/// The value of a hexadecimal digit byte.
pub open spec fn hex_val(c: u8) -> u8 {
    if 48 <= c <= 57 {
        (c - 48) as u8
    } else if 97 <= c <= 102 {
        (c - 87) as u8
    } else {
        (c - 55) as u8
    }
}

/// The bytes spelled by an ASCII hex string: defined when the length is even
/// and every byte is a hex digit of either case.
pub open spec fn spec_hex_decode(s: Seq<u8>) -> Option<Seq<u8>> {
    if s.len() % 2 == 0 && (forall|i: int| 0 <= i < s.len() ==> is_hex_digit_byte(#[trigger] s[i])) {
        Some(
            Seq::new(
                s.len() / 2,
                |i: int| (16 * hex_val(s[2 * i]) + hex_val(s[2 * i + 1])) as u8,
            ),
        )
    } else {
        None
    }
}

/// Relies on `hex::decode`: it accepts an even number of hexadecimal digits
/// of either case and returns the bytes they spell; it rejects an odd length
/// and any other character.
#[verifier::external_body]
pub fn hex_decode_bytes(s: &[u8]) -> (r: Option<Vec<u8>>)
    ensures
        r matches Some(v) ==> spec_hex_decode(s@) == Some(v@),
        r is None <==> spec_hex_decode(s@) is None,
{
    hex::decode(s).ok()
}

} // verus!
