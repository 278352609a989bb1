//! Mirrored records and their binary encoding.
//!
//! Every persisted value uses the same scheme as the call codec, applied
//! field by field in declaration order: unsigned 128-bit integers are
//! sixteen little-endian bytes, strings carry a four-byte little-endian
//! length prefix, account identifiers are thirty-two raw bytes, booleans and
//! option tags are a single byte.

use vstd::prelude::*;
use vstd::bytes::*;
use vstd::slice::{slice_subrange, slice_to_vec};
use vstd::utf8::{valid_utf8, decode_utf8, encode_utf8};
use vstd::string::StringSliceAdditionalSpecFns;

use crate::account::AccountId;

verus! {

// ---------------------------------------------------------------------------
// Field writers
// ---------------------------------------------------------------------------

/// The length-prefixed encoding of a byte string.
pub open spec fn spec_enc_prefixed(b: Seq<u8>) -> Seq<u8> {
    spec_u32_to_le_bytes(b.len() as u32) + b
}

/// The encoding of a string: its UTF-8 bytes, length-prefixed.
pub open spec fn spec_enc_string(s: Seq<char>) -> Seq<u8> {
    spec_enc_prefixed(encode_utf8(s))
}

/// The encoding of a boolean: one or zero, one byte.
pub open spec fn spec_enc_bool(b: bool) -> Seq<u8> {
    seq![if b { 1u8 } else { 0u8 }]
}

/// The encoding of an optional unsigned 128-bit value: a tag byte, then the
/// value when present.
pub open spec fn spec_enc_opt_u128(v: Option<u128>) -> Seq<u8> {
    match v {
        None => seq![0u8],
        Some(x) => seq![1u8] + spec_u128_to_le_bytes(x),
    }
}

/// Appends the sixteen little-endian bytes of `v`.
pub(crate) fn write_u128(out: &mut Vec<u8>, v: u128)
    ensures
        final(out)@ == old(out)@ + spec_u128_to_le_bytes(v),
{
    let mut enc = u128_to_le_bytes(v);
    out.append(&mut enc);
}

/// Appends a length-prefixed byte string.
pub(crate) fn write_prefixed(out: &mut Vec<u8>, b: &[u8])
    requires
        b@.len() < 0x1_0000_0000,
    ensures
        final(out)@ == old(out)@ + spec_enc_prefixed(b@),
{
    let mut prefix = u32_to_le_bytes(b.len() as u32);
    out.append(&mut prefix);
    out.extend_from_slice(b);
    proof {
        assert(final(out)@ =~= old(out)@ + spec_enc_prefixed(b@));
    }
}

/// Appends one tag byte and, when present, sixteen little-endian bytes.
pub(crate) fn write_opt_u128(out: &mut Vec<u8>, v: &Option<u128>)
    ensures
        final(out)@ == old(out)@ + spec_enc_opt_u128(*v),
{
    match v {
        None => {
            out.push(0u8);
            proof {
                assert(final(out)@ =~= old(out)@ + spec_enc_opt_u128(None));
            }
        },
        Some(x) => {
            out.push(1u8);
            write_u128(out, *x);
            proof {
                assert(final(out)@ =~= old(out)@ + spec_enc_opt_u128(Some(*x)));
            }
        },
    }
}

// ---------------------------------------------------------------------------
// Field readers, over the remaining suffix of the input
// ---------------------------------------------------------------------------

/// Reads an unsigned 128-bit value off the head of `s`.
pub open spec fn spec_dec_u128(s: Seq<u8>) -> Option<(u128, Seq<u8>)> {
    if s.len() >= 16 {
        Some((spec_u128_from_le_bytes(s.take(16)), s.skip(16)))
    } else {
        None
    }
}

/// Reads thirty-two raw bytes off the head of `s`.
pub open spec fn spec_dec_bytes32(s: Seq<u8>) -> Option<(Seq<u8>, Seq<u8>)> {
    if s.len() >= 32 {
        Some((s.take(32), s.skip(32)))
    } else {
        None
    }
}

/// Reads a length-prefixed UTF-8 string off the head of `s`.
pub open spec fn spec_dec_string(s: Seq<u8>) -> Option<(Seq<char>, Seq<u8>)> {
    if s.len() < 4 {
        None
    } else {
        let n = spec_u32_from_le_bytes(s.take(4)) as int;
        let rest = s.skip(4);
        if rest.len() < n {
            None
        } else {
            let body = rest.take(n);
            if valid_utf8(body) {
                Some((decode_utf8(body), rest.skip(n)))
            } else {
                None
            }
        }
    }
}

/// Reads a boolean byte off the head of `s`; only one and zero decode.
pub open spec fn spec_dec_bool(s: Seq<u8>) -> Option<(bool, Seq<u8>)> {
    if s.len() >= 1 {
        if s[0] == 1u8 {
            Some((true, s.skip(1)))
        } else if s[0] == 0u8 {
            Some((false, s.skip(1)))
        } else {
            None
        }
    } else {
        None
    }
}

/// Reads an optional unsigned 128-bit value off the head of `s`.
pub open spec fn spec_dec_opt_u128(s: Seq<u8>) -> Option<(Option<u128>, Seq<u8>)> {
    if s.len() < 1 {
        None
    } else if s[0] == 0u8 {
        Some((None, s.skip(1)))
    } else if s[0] == 1u8 {
        match spec_dec_u128(s.skip(1)) {
            None => None,
            Some((v, rest)) => Some((Some(v), rest)),
        }
    } else {
        None
    }
}

/// Reads sixteen little-endian bytes at `off`.
pub(crate) fn read_u128(data: &[u8], off: usize) -> (r: Option<(u128, usize)>)
    requires
        off <= data@.len(),
    ensures
        r matches Some((v, next)) ==> off <= next <= data@.len() && spec_dec_u128(
            data@.skip(off as int),
        ) == Some((v, data@.skip(next as int))),
        r is None <==> spec_dec_u128(data@.skip(off as int)) is None,
{
    if data.len() - off >= 16 {
        let head = slice_subrange(data, off, off + 16);
        let v = u128_from_le_bytes(head);
        proof {
            assert(data@.skip(off as int).take(16) =~= data@.subrange(off as int, off + 16));
            assert(data@.skip(off as int).skip(16) =~= data@.skip(off + 16));
        }
        Some((v, off + 16))
    } else {
        None
    }
}

/// Reads thirty-two raw bytes at `off` as an account identifier.
pub(crate) fn read_account(data: &[u8], off: usize) -> (r: Option<(AccountId, usize)>)
    requires
        off <= data@.len(),
    ensures
        r matches Some((a, next)) ==> off <= next <= data@.len() && a.wf() && spec_dec_bytes32(
            data@.skip(off as int),
        ) == Some((a@, data@.skip(next as int))),
        r is None <==> spec_dec_bytes32(data@.skip(off as int)) is None,
{
    if data.len() - off >= 32 {
        let head = slice_subrange(data, off, off + 32);
        let v = slice_to_vec(head);
        proof {
            assert(data@.skip(off as int).take(32) =~= data@.subrange(off as int, off + 32));
            assert(data@.skip(off as int).skip(32) =~= data@.skip(off + 32));
        }
        match AccountId::from_bytes(v) {
            Some(a) => Some((a, off + 32)),
            None => None,
        }
    } else {
        None
    }
}

/// Reads a length-prefixed UTF-8 string at `off`.
pub(crate) fn read_string(data: &[u8], off: usize) -> (r: Option<(String, usize)>)
    requires
        off <= data@.len(),
    ensures
        r matches Some((s, next)) ==> off <= next <= data@.len() && spec_dec_string(
            data@.skip(off as int),
        ) == Some((s@, data@.skip(next as int))),
        r is None <==> spec_dec_string(data@.skip(off as int)) is None,
{
    if data.len() - off < 4 {
        return None;
    }
    let prefix = slice_subrange(data, off, off + 4);
    proof {
        assert(data@.skip(off as int).take(4) =~= data@.subrange(off as int, off + 4));
    }
    let n = u32_from_le_bytes(prefix) as usize;
    if data.len() - (off + 4) < n {
        proof {
            assert(data@.skip(off as int).skip(4).len() < n);
        }
        return None;
    }
    let body = slice_subrange(data, off + 4, off + 4 + n);
    proof {
        assert(data@.skip(off as int).skip(4).take(n as int) =~= data@.subrange(
            off + 4,
            off + 4 + n,
        ));
        assert(data@.skip(off as int).skip(4).skip(n as int) =~= data@.skip(off + 4 + n));
    }
    match crate::text::string_from_utf8(slice_to_vec(body)) {
        Some(s) => Some((s, off + 4 + n)),
        None => None,
    }
}

/// Reads a boolean byte at `off`.
pub(crate) fn read_bool(data: &[u8], off: usize) -> (r: Option<(bool, usize)>)
    requires
        off <= data@.len(),
    ensures
        r matches Some((b, next)) ==> off <= next <= data@.len() && spec_dec_bool(
            data@.skip(off as int),
        ) == Some((b, data@.skip(next as int))),
        r is None <==> spec_dec_bool(data@.skip(off as int)) is None,
{
    if data.len() - off >= 1 {
        let tag = *vstd::slice::slice_index_get(data, off);
        proof {
            assert(data@.skip(off as int)[0] == data@[off as int]);
            assert(data@.skip(off as int).skip(1) =~= data@.skip(off + 1));
        }
        if tag == 1u8 {
            Some((true, off + 1))
        } else if tag == 0u8 {
            Some((false, off + 1))
        } else {
            None
        }
    } else {
        None
    }
}

/// Reads an optional unsigned 128-bit value at `off`.
pub(crate) fn read_opt_u128(data: &[u8], off: usize) -> (r: Option<(Option<u128>, usize)>)
    requires
        off <= data@.len(),
    ensures
        r matches Some((v, next)) ==> off <= next <= data@.len() && spec_dec_opt_u128(
            data@.skip(off as int),
        ) == Some((v, data@.skip(next as int))),
        r is None <==> spec_dec_opt_u128(data@.skip(off as int)) is None,
{
    if data.len() - off < 1 {
        return None;
    }
    let tag = *vstd::slice::slice_index_get(data, off);
    proof {
        assert(data@.skip(off as int)[0] == data@[off as int]);
        assert(data@.skip(off as int).skip(1) =~= data@.skip(off + 1));
    }
    if tag == 0u8 {
        Some((None, off + 1))
    } else if tag == 1u8 {
        match read_u128(data, off + 1) {
            Some((v, next)) => Some((Some(v), next)),
            None => None,
        }
    } else {
        None
    }
}

// ---------------------------------------------------------------------------
// Token
// ---------------------------------------------------------------------------

/// A mirrored token record.
#[derive(Debug)]
pub struct Token {
    /// The token identifier; immutable identity of the record.
    pub id: u128,
    /// The token's metadata URI.
    pub uri: String,
    /// The account that created the token.
    pub creator: AccountId,
    /// The token's total supply.
    pub total_supply: u128,
    /// The price at which transactions trigger, when set.
    pub price_threshold: Option<u128>,
}

/// The mathematical content of a token record.
pub struct TokenView {
    /// The token identifier.
    pub id: u128,
    /// The token's metadata URI, as characters.
    pub uri: Seq<char>,
    /// The creator's thirty-two bytes.
    pub creator: Seq<u8>,
    /// The token's total supply.
    pub total_supply: u128,
    /// The price at which transactions trigger, when set.
    pub price_threshold: Option<u128>,
}

impl View for Token {
    type V = TokenView;

    open spec fn view(&self) -> TokenView {
        TokenView {
            id: self.id,
            uri: self.uri@,
            creator: self.creator@,
            total_supply: self.total_supply,
            price_threshold: self.price_threshold,
        }
    }
}

impl TokenView {
    /// The creator is a full identifier and the URI fits its length prefix.
    pub open spec fn wf(&self) -> bool {
        self.creator.len() == 32 && encode_utf8(self.uri).len() < 0x1_0000_0000
    }
}

impl Token {
    /// The record is well formed.
    pub open spec fn wf(&self) -> bool {
        self@.wf()
    }
}

impl Clone for Token {
    fn clone(&self) -> (r: Self)
        ensures
            r@ == self@,
    {
        Token {
            id: self.id,
            uri: self.uri.clone(),
            creator: self.creator.clone(),
            total_supply: self.total_supply,
            price_threshold: self.price_threshold,
        }
    }
}

/// The encoding of a token record, field by field in declaration order.
pub open spec fn spec_encode_token(t: TokenView) -> Seq<u8> {
    spec_u128_to_le_bytes(t.id) + spec_enc_string(t.uri) + t.creator + spec_u128_to_le_bytes(
        t.total_supply,
    ) + spec_enc_opt_u128(t.price_threshold)
}

/// The token record read off the head of `s`; trailing bytes are ignored.
pub open spec fn spec_decode_token(s: Seq<u8>) -> Option<TokenView> {
    match spec_dec_u128(s) {
        None => None,
        Some((id, s1)) => match spec_dec_string(s1) {
            None => None,
            Some((uri, s2)) => match spec_dec_bytes32(s2) {
                None => None,
                Some((creator, s3)) => match spec_dec_u128(s3) {
                    None => None,
                    Some((total_supply, s4)) => match spec_dec_opt_u128(s4) {
                        None => None,
                        Some((price_threshold, _)) => Some(
                            TokenView { id, uri, creator, total_supply, price_threshold },
                        ),
                    },
                },
            },
        },
    }
}

/// Encodes a token record.
pub fn encode_token(t: &Token) -> (r: Vec<u8>)
    requires
        t.wf(),
    ensures
        r@ == spec_encode_token(t@),
{
    let mut out: Vec<u8> = Vec::new();
    write_u128(&mut out, t.id);
    write_prefixed(&mut out, t.uri.as_str().as_bytes());
    out.extend_from_slice(t.creator.as_bytes());
    write_u128(&mut out, t.total_supply);
    write_opt_u128(&mut out, &t.price_threshold);
    proof {
        assert(out@ =~= spec_encode_token(t@));
    }
    out
}

/// Decodes a token record from the head of `data`.
pub fn decode_token(data: &[u8]) -> (r: Option<Token>)
    ensures
        r matches Some(t) ==> t.wf() && spec_decode_token(data@) == Some(t@),
        r is None <==> spec_decode_token(data@) is None,
{
    proof {
        assert(data@.skip(0) =~= data@);
    }
    let (id, o1) = match read_u128(data, 0) {
        Some(x) => x,
        None => {
            return None;
        },
    };
    let (uri, o2) = match read_string(data, o1) {
        Some(x) => x,
        None => {
            return None;
        },
    };
    let (creator, o3) = match read_account(data, o2) {
        Some(x) => x,
        None => {
            return None;
        },
    };
    let (total_supply, o4) = match read_u128(data, o3) {
        Some(x) => x,
        None => {
            return None;
        },
    };
    let (price_threshold, _o5) = match read_opt_u128(data, o4) {
        Some(x) => x,
        None => {
            return None;
        },
    };
    proof {
        let s1 = data@.skip(o1 as int);
        let n = spec_u32_from_le_bytes(s1.take(4)) as int;
        let body = s1.skip(4).take(n);
        vstd::utf8::decode_utf8_encode_utf8(body);
    }
    Some(Token { id, uri, creator, total_supply, price_threshold })
}

// ---------------------------------------------------------------------------
// Balance
// ---------------------------------------------------------------------------

/// A mirrored balance record: one per (account, token) pair.
#[derive(Debug)]
pub struct Balance {
    /// The holding account.
    pub account: AccountId,
    /// The token held.
    pub token_id: u128,
    /// The amount held.
    pub amount: u128,
}

/// The mathematical content of a balance record.
pub struct BalanceView {
    /// The holding account's thirty-two bytes.
    pub account: Seq<u8>,
    /// The token held.
    pub token_id: u128,
    /// The amount held.
    pub amount: u128,
}

impl View for Balance {
    type V = BalanceView;

    open spec fn view(&self) -> BalanceView {
        BalanceView { account: self.account@, token_id: self.token_id, amount: self.amount }
    }
}

impl BalanceView {
    /// The account is a full identifier.
    pub open spec fn wf(&self) -> bool {
        self.account.len() == 32
    }
}

impl Balance {
    /// The record is well formed.
    pub open spec fn wf(&self) -> bool {
        self@.wf()
    }
}

impl Clone for Balance {
    fn clone(&self) -> (r: Self)
        ensures
            r@ == self@,
    {
        Balance { account: self.account.clone(), token_id: self.token_id, amount: self.amount }
    }
}

/// The encoding of a balance record, field by field in declaration order.
pub open spec fn spec_encode_balance(b: BalanceView) -> Seq<u8> {
    b.account + spec_u128_to_le_bytes(b.token_id) + spec_u128_to_le_bytes(b.amount)
}

/// The balance record read off the head of `s`; trailing bytes are ignored.
pub open spec fn spec_decode_balance(s: Seq<u8>) -> Option<BalanceView> {
    match spec_dec_bytes32(s) {
        None => None,
        Some((account, s1)) => match spec_dec_u128(s1) {
            None => None,
            Some((token_id, s2)) => match spec_dec_u128(s2) {
                None => None,
                Some((amount, _)) => Some(BalanceView { account, token_id, amount }),
            },
        },
    }
}

/// Encodes a balance record.
pub fn encode_balance(b: &Balance) -> (r: Vec<u8>)
    requires
        b.wf(),
    ensures
        r@ == spec_encode_balance(b@),
{
    let mut out: Vec<u8> = Vec::new();
    out.extend_from_slice(b.account.as_bytes());
    write_u128(&mut out, b.token_id);
    write_u128(&mut out, b.amount);
    proof {
        assert(out@ =~= spec_encode_balance(b@));
    }
    out
}

/// Decodes a balance record from the head of `data`.
pub fn decode_balance(data: &[u8]) -> (r: Option<Balance>)
    ensures
        r matches Some(b) ==> b.wf() && spec_decode_balance(data@) == Some(b@),
        r is None <==> spec_decode_balance(data@) is None,
{
    proof {
        assert(data@.skip(0) =~= data@);
    }
    let (account, off) = match read_account(data, 0) {
        Some(x) => x,
        None => {
            return None;
        },
    };
    let (token_id, off) = match read_u128(data, off) {
        Some(x) => x,
        None => {
            return None;
        },
    };
    let (amount, _off) = match read_u128(data, off) {
        Some(x) => x,
        None => {
            return None;
        },
    };
    Some(Balance { account, token_id, amount })
}

// ---------------------------------------------------------------------------
// Round trips
// ---------------------------------------------------------------------------

/// Reading an unsigned 128-bit value off its encoding leaves the rest.
pub proof fn lemma_dec_u128_exact(v: u128, rest: Seq<u8>)
    ensures
        spec_dec_u128(spec_u128_to_le_bytes(v) + rest) == Some((v, rest)),
{
    lemma_auto_spec_u128_to_from_le_bytes();
    let s = spec_u128_to_le_bytes(v) + rest;
    assert(s.take(16) =~= spec_u128_to_le_bytes(v));
    assert(s.skip(16) =~= rest);
}

/// Reading thirty-two bytes off their raw encoding leaves the rest.
pub proof fn lemma_dec_bytes32_exact(b: Seq<u8>, rest: Seq<u8>)
    requires
        b.len() == 32,
    ensures
        spec_dec_bytes32(b + rest) == Some((b, rest)),
{
    let s = b + rest;
    assert(s.take(32) =~= b);
    assert(s.skip(32) =~= rest);
}

/// Reading a string off its encoding leaves the rest.
pub proof fn lemma_dec_string_exact(u: Seq<char>, rest: Seq<u8>)
    requires
        encode_utf8(u).len() < 0x1_0000_0000,
    ensures
        spec_dec_string(spec_enc_string(u) + rest) == Some((u, rest)),
{
    let bytes = encode_utf8(u);
    let n = bytes.len() as u32;
    let s = spec_enc_string(u) + rest;
    lemma_auto_spec_u32_to_from_le_bytes();
    assert(s.take(4) =~= spec_u32_to_le_bytes(n));
    assert(s.skip(4) =~= bytes + rest);
    assert((bytes + rest).take(n as int) =~= bytes);
    assert((bytes + rest).skip(n as int) =~= rest);
    vstd::utf8::encode_utf8_valid_utf8(u);
    vstd::utf8::encode_utf8_decode_utf8(u);
}

/// Reading a boolean off its encoding leaves the rest.
pub proof fn lemma_dec_bool_exact(b: bool, rest: Seq<u8>)
    ensures
        spec_dec_bool(spec_enc_bool(b) + rest) == Some((b, rest)),
{
    let s = spec_enc_bool(b) + rest;
    assert(s.skip(1) =~= rest);
}

/// Reading an optional value off its encoding leaves the rest.
pub proof fn lemma_dec_opt_u128_exact(v: Option<u128>, rest: Seq<u8>)
    ensures
        spec_dec_opt_u128(spec_enc_opt_u128(v) + rest) == Some((v, rest)),
{
    let s = spec_enc_opt_u128(v) + rest;
    match v {
        None => {
            assert(s.skip(1) =~= rest);
        },
        Some(x) => {
            assert(s.skip(1) =~= spec_u128_to_le_bytes(x) + rest);
            lemma_dec_u128_exact(x, rest);
        },
    }
}

/// Decoding an encoded token record yields the record again.
pub proof fn lemma_token_round_trip(t: TokenView)
    requires
        t.wf(),
    ensures
        spec_decode_token(spec_encode_token(t)) == Some(t),
{
    let e1 = spec_enc_string(t.uri);
    let e3 = spec_u128_to_le_bytes(t.total_supply);
    let e4 = spec_enc_opt_u128(t.price_threshold);
    let tail1 = e1 + (t.creator + (e3 + e4));
    assert(spec_encode_token(t) =~= spec_u128_to_le_bytes(t.id) + tail1);
    lemma_dec_u128_exact(t.id, tail1);
    lemma_dec_string_exact(t.uri, t.creator + (e3 + e4));
    lemma_dec_bytes32_exact(t.creator, e3 + e4);
    lemma_dec_u128_exact(t.total_supply, e4);
    assert(e4 =~= e4 + Seq::<u8>::empty());
    lemma_dec_opt_u128_exact(t.price_threshold, Seq::<u8>::empty());
}

/// Decoding an encoded balance record yields the record again.
pub proof fn lemma_balance_round_trip(b: BalanceView)
    requires
        b.wf(),
    ensures
        spec_decode_balance(spec_encode_balance(b)) == Some(b),
{
    let e1 = spec_u128_to_le_bytes(b.token_id);
    let e2 = spec_u128_to_le_bytes(b.amount);
    assert(spec_encode_balance(b) =~= b.account + (e1 + e2));
    lemma_dec_bytes32_exact(b.account, e1 + e2);
    lemma_dec_u128_exact(b.token_id, e2);
    assert(e2 =~= e2 + Seq::<u8>::empty());
    lemma_dec_u128_exact(b.amount, Seq::<u8>::empty());
}

} // verus!
