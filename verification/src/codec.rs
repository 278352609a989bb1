//! Binary call codec: selector lookup, call classification, argument
//! encoding and result decoding.
//!
//! Unsigned 128-bit values are sixteen little-endian bytes; strings and byte
//! strings carry a four-byte little-endian length prefix followed by the raw
//! bytes; booleans are a single byte holding one or zero.

use vstd::prelude::*;
use vstd::bytes::*;
use vstd::slice::{slice_subrange, slice_index_get};
use vstd::utf8::{valid_utf8, decode_utf8, encode_utf8};
use vstd::string::{StringSliceAdditionalSpecFns, StrSliceExecFns};

use crate::error::CliError;

verus! {

/// Whether a call only reads state or changes it.
#[derive(Debug, Clone, Copy, PartialEq, Eq, Structural)]
pub enum CallKind {
    /// Dispatched as a read-only state call.
    Query,
    /// Signed, submitted and awaited to finalization.
    Transaction,
}

/// A typed argument of a contract call.
#[derive(Debug)]
pub enum CallArg {
    /// An unsigned 128-bit integer.
    U128(u128),
    /// A text string.
    Str(String),
    /// A raw byte string.
    Bytes(Vec<u8>),
    /// A boolean flag.
    Bool(bool),
    /// A signed 128-bit integer; not encodable.
    I128(i128),
    /// A single character; not encodable.
    Char(char),
}

// ---------------------------------------------------------------------------
// Byte-level helpers
// ---------------------------------------------------------------------------

/// Compares two byte slices for equality.
pub fn bytes_eq(a: &[u8], b: &[u8]) -> (r: bool)
    ensures
        r == (a@ == b@),
{
    if a.len() != b.len() {
        assert(a@ != b@) by {
            assert(a@.len() != b@.len());
        }
        return false;
    }
    let n = a.len();
    let mut i: usize = 0;
    while i < n
        invariant
            n == a@.len() == b@.len(),
            i <= n,
            forall|j: int| 0 <= j < i ==> a@[j] == b@[j],
        decreases n - i,
    {
        if *slice_index_get(a, i) != *slice_index_get(b, i) {
            return false;
        }
        i += 1;
    }
    proof {
        assert(a@ =~= b@);
    }
    true
}

/// Compares two string slices for equality of their character sequences.
pub fn str_eq(a: &str, b: &str) -> (r: bool)
    ensures
        r == (a@ == b@),
{
    let r = bytes_eq(a.as_bytes(), b.as_bytes());
    proof {
        if a.spec_bytes() == b.spec_bytes() {
            vstd::utf8::encode_utf8_decode_utf8(a@);
            vstd::utf8::encode_utf8_decode_utf8(b@);
        }
    }
    r
}

// ---------------------------------------------------------------------------
// Substring containment
// ---------------------------------------------------------------------------

/// The needle occurs in the haystack starting at position `i`.
pub open spec fn match_at(hay: Seq<char>, needle: Seq<char>, i: int) -> bool {
    &&& 0 <= i
    &&& i + needle.len() <= hay.len()
    &&& forall|j: int| 0 <= j < needle.len() ==> hay[i + j] == needle[j]
}

/// The needle occurs somewhere in the haystack.
pub open spec fn contains_sub(hay: Seq<char>, needle: Seq<char>) -> bool {
    exists|i: int| match_at(hay, needle, i)
}

/// Whether `needle` occurs as a contiguous substring of `hay`.
pub fn str_contains(hay: &str, needle: &str) -> (r: bool)
    ensures
        r == contains_sub(hay@, needle@),
{
    let hlen = hay.unicode_len();
    let nlen = needle.unicode_len();
    if nlen > hlen {
        return false;
    }
    let mut i: usize = 0;
    while i <= hlen - nlen
        invariant
            hlen == hay@.len(),
            nlen == needle@.len(),
            nlen <= hlen,
            i <= hlen - nlen + 1,
            forall|k: int| 0 <= k < i ==> !match_at(hay@, needle@, k),
        decreases hlen - nlen - i + 1,
    {
        let mut j: usize = 0;
        let mut matched = true;
        while j < nlen
            invariant
                hlen == hay@.len(),
                nlen == needle@.len(),
                i + nlen <= hlen,
                j <= nlen,
                matched <==> (forall|l: int| 0 <= l < j ==> hay@[i + l] == needle@[l]),
            decreases nlen - j,
        {
            let hc = hay.get_char(i + j);
            let nc = needle.get_char(j);
            if hc != nc {
                matched = false;
                j = nlen;
            } else {
                j += 1;
            }
        }
        if matched {
            assert(match_at(hay@, needle@, i as int));
            return true;
        }
        i += 1;
    }
    proof {
        assert forall|k: int| !match_at(hay@, needle@, k) by {
            if 0 <= k && k + needle@.len() <= hay@.len() {
                assert(k < i);
            }
        }
    }
    false
}

// ---------------------------------------------------------------------------
// Classification
// ---------------------------------------------------------------------------

/// A method name denotes a read-only query when it contains `balance_of`,
/// `uri` or `is_approved_for_all` as a substring; otherwise it denotes a
/// state-changing transaction.
pub open spec fn spec_classify(m: Seq<char>) -> CallKind {
    if contains_sub(m, "balance_of"@) || contains_sub(m, "uri"@) || contains_sub(
        m,
        "is_approved_for_all"@,
    ) {
        CallKind::Query
    } else {
        CallKind::Transaction
    }
}

/// Classifies a method name as a read-only query or a state-changing
/// transaction.
pub fn classify(method: &str) -> (r: CallKind)
    ensures
        r == spec_classify(method@),
{
    if str_contains(method, "balance_of") || str_contains(method, "uri") || str_contains(
        method,
        "is_approved_for_all",
    ) {
        CallKind::Query
    } else {
        CallKind::Transaction
    }
}

// ---------------------------------------------------------------------------
// Selector table
// ---------------------------------------------------------------------------

/// The four-byte selector registered for a method name, if any.
pub open spec fn spec_selector(m: Seq<char>) -> Option<Seq<u8>> {
    if m == "ERC1155::balance_of"@ {
        Some(seq![0x00u8, 0x01u8, 0x02u8, 0x03u8])
    } else if m == "ERC1155::balance_of_batch"@ {
        Some(seq![0x10u8, 0x11u8, 0x12u8, 0x13u8])
    } else if m == "ERC1155::set_approval_for_all"@ {
        Some(seq![0x20u8, 0x21u8, 0x22u8, 0x23u8])
    } else if m == "ERC1155::is_approved_for_all"@ {
        Some(seq![0x30u8, 0x31u8, 0x32u8, 0x33u8])
    } else if m == "ERC1155::safe_transfer_from"@ {
        Some(seq![0x40u8, 0x41u8, 0x42u8, 0x43u8])
    } else if m == "ERC1155::safe_batch_transfer_from"@ {
        Some(seq![0x50u8, 0x51u8, 0x52u8, 0x53u8])
    } else if m == "ERC1155::create"@ {
        Some(seq![0x60u8, 0x61u8, 0x62u8, 0x63u8])
    } else if m == "ERC1155::uri"@ {
        Some(seq![0x70u8, 0x71u8, 0x72u8, 0x73u8])
    } else if m == "ERC1155::mint"@ {
        Some(seq![0x80u8, 0x81u8, 0x82u8, 0x83u8])
    } else if m == "ERC1155::burn"@ {
        Some(seq![0x90u8, 0x91u8, 0x92u8, 0x93u8])
    } else {
        None
    }
}

/// Looks up the selector registered for a method name.
pub fn selector_of(method: &str) -> (r: Option<Vec<u8>>)
    ensures
        r matches Some(v) ==> spec_selector(method@) == Some(v@),
        r is None <==> spec_selector(method@) is None,
{
    let r: Option<Vec<u8>> = if str_eq(method, "ERC1155::balance_of") {
        Some(vec![0x00u8, 0x01u8, 0x02u8, 0x03u8])
    } else if str_eq(method, "ERC1155::balance_of_batch") {
        Some(vec![0x10u8, 0x11u8, 0x12u8, 0x13u8])
    } else if str_eq(method, "ERC1155::set_approval_for_all") {
        Some(vec![0x20u8, 0x21u8, 0x22u8, 0x23u8])
    } else if str_eq(method, "ERC1155::is_approved_for_all") {
        Some(vec![0x30u8, 0x31u8, 0x32u8, 0x33u8])
    } else if str_eq(method, "ERC1155::safe_transfer_from") {
        Some(vec![0x40u8, 0x41u8, 0x42u8, 0x43u8])
    } else if str_eq(method, "ERC1155::safe_batch_transfer_from") {
        Some(vec![0x50u8, 0x51u8, 0x52u8, 0x53u8])
    } else if str_eq(method, "ERC1155::create") {
        Some(vec![0x60u8, 0x61u8, 0x62u8, 0x63u8])
    } else if str_eq(method, "ERC1155::uri") {
        Some(vec![0x70u8, 0x71u8, 0x72u8, 0x73u8])
    } else if str_eq(method, "ERC1155::mint") {
        Some(vec![0x80u8, 0x81u8, 0x82u8, 0x83u8])
    } else if str_eq(method, "ERC1155::burn") {
        Some(vec![0x90u8, 0x91u8, 0x92u8, 0x93u8])
    } else {
        None
    };
    proof {
        if let Some(ref v) = r {
            assert(spec_selector(method@) == Some(v@)) by {
                assert(v@ =~= spec_selector(method@).unwrap());
            }
        }
    }
    r
}

// ---------------------------------------------------------------------------
// Argument encoding
// ---------------------------------------------------------------------------

/// The encoding of one argument, or `None` for an unsupported kind.
pub open spec fn spec_encode_arg(a: CallArg) -> Option<Seq<u8>> {
    match a {
        CallArg::U128(v) => Some(spec_u128_to_le_bytes(v)),
        CallArg::Str(s) => Some(
            spec_u32_to_le_bytes(encode_utf8(s@).len() as u32) + encode_utf8(s@),
        ),
        CallArg::Bytes(b) => Some(spec_u32_to_le_bytes(b@.len() as u32) + b@),
        CallArg::Bool(b) => Some(seq![if b { 1u8 } else { 0u8 }]),
        CallArg::I128(_) => None,
        CallArg::Char(_) => None,
    }
}

/// A length-prefixed argument is short enough for its four-byte prefix.
pub open spec fn arg_len_ok(a: CallArg) -> bool {
    match a {
        CallArg::Str(s) => encode_utf8(s@).len() < 0x1_0000_0000,
        CallArg::Bytes(b) => b@.len() < 0x1_0000_0000,
        _ => true,
    }
}

/// The concatenated encoding of an argument list, or `None` when some
/// argument has an unsupported kind.
pub open spec fn spec_encode_args(args: Seq<CallArg>) -> Option<Seq<u8>>
    decreases args.len(),
{
    if args.len() == 0 {
        Some(Seq::empty())
    } else {
        match (spec_encode_arg(args[0]), spec_encode_args(args.drop_first())) {
            (Some(head), Some(tail)) => Some(head + tail),
            _ => None,
        }
    }
}

/// Appends the encoding of one argument to `out`; fails on an unsupported
/// argument kind, leaving `out` unchanged.
fn encode_arg_into(out: &mut Vec<u8>, a: &CallArg) -> (r: Result<(), CliError>)
    requires
        arg_len_ok(*a),
    ensures
        r matches Ok(()) ==> {
            &&& spec_encode_arg(*a) is Some
            &&& final(out)@ == old(out)@ + spec_encode_arg(*a).unwrap()
        },
        r matches Err(e) ==> {
            &&& e == CliError::ConversionError
            &&& spec_encode_arg(*a) is None
            &&& final(out)@ == old(out)@
        },
{
    match a {
        CallArg::U128(v) => {
            let mut enc = u128_to_le_bytes(*v);
            out.append(&mut enc);
            Ok(())
        },
        CallArg::Str(s) => {
            let bytes = s.as_str().as_bytes();
            let len = bytes.len() as u32;
            let mut prefix = u32_to_le_bytes(len);
            out.append(&mut prefix);
            out.extend_from_slice(bytes);
            Ok(())
        },
        CallArg::Bytes(b) => {
            let len = b.len() as u32;
            let mut prefix = u32_to_le_bytes(len);
            out.append(&mut prefix);
            out.extend_from_slice(b.as_slice());
            Ok(())
        },
        CallArg::Bool(b) => {
            out.push(if *b { 1u8 } else { 0u8 });
            proof {
                assert(final(out)@ =~= old(out)@ + spec_encode_arg(*a).unwrap());
            }
            Ok(())
        },
        CallArg::I128(_) => Err(CliError::ConversionError),
        CallArg::Char(_) => Err(CliError::ConversionError),
    }
}

/// Encodes an argument list; fails with `ConversionError` exactly when some
/// argument has an unsupported kind.
pub fn encode_args(args: &Vec<CallArg>) -> (r: Result<Vec<u8>, CliError>)
    requires
        forall|i: int| 0 <= i < args@.len() ==> arg_len_ok(#[trigger] args@[i]),
    ensures
        r matches Ok(v) ==> spec_encode_args(args@) == Some(v@),
        r matches Err(e) ==> e == CliError::ConversionError && spec_encode_args(args@) is None,
{
    let mut out: Vec<u8> = Vec::new();
    let n = args.len();
    let mut i: usize = 0;
    while i < n
        invariant
            n == args@.len(),
            i <= n,
            forall|k: int| 0 <= k < args@.len() ==> arg_len_ok(#[trigger] args@[k]),
            spec_encode_args(args@.subrange(0, i as int)) == Some(out@),
        decreases n - i,
    {
        let ghost prefix = args@.subrange(0, i as int);
        match encode_arg_into(&mut out, &args[i]) {
            Ok(()) => {},
            Err(e) => {
                proof {
                    lemma_encode_args_bad(args@, i as int);
                }
                return Err(e);
            },
        }
        proof {
            lemma_encode_args_snoc(args@, i as int);
            assert(args@.subrange(0, i + 1).drop_last() =~= prefix);
            assert(args@.subrange(0, i + 1).last() == args@[i as int]);
        }
        i += 1;
    }
    proof {
        assert(args@.subrange(0, n as int) =~= args@);
    }
    Ok(out)
}

/// A list whose element at `i` has an unsupported kind has no encoding.
proof fn lemma_encode_args_bad(args: Seq<CallArg>, i: int)
    requires
        0 <= i < args.len(),
        spec_encode_arg(args[i]) is None,
    ensures
        spec_encode_args(args) is None,
    decreases args.len(),
{
    if i > 0 {
        lemma_encode_args_bad(args.drop_first(), i - 1);
    }
}

/// Encoding a list is encoding its prefix and then its last element.
proof fn lemma_encode_args_snoc(args: Seq<CallArg>, i: int)
    requires
        0 <= i < args.len(),
        spec_encode_args(args.subrange(0, i)) is Some,
        spec_encode_arg(args[i]) is Some,
    ensures
        spec_encode_args(args.subrange(0, i + 1)) == Some(
            spec_encode_args(args.subrange(0, i)).unwrap() + spec_encode_arg(args[i]).unwrap(),
        ),
{
    assert(args.subrange(0, i + 1).drop_last() =~= args.subrange(0, i));
    assert(args.subrange(0, i + 1).last() == args[i]);
    lemma_encode_args_append_one(args.subrange(0, i + 1));
}

/// Encoding a non-empty list is encoding all but the last element and then
/// the last.
proof fn lemma_encode_args_append_one(args: Seq<CallArg>)
    requires
        args.len() > 0,
        spec_encode_args(args.drop_last()) is Some,
        spec_encode_arg(args.last()) is Some,
    ensures
        spec_encode_args(args) == Some(
            spec_encode_args(args.drop_last()).unwrap() + spec_encode_arg(args.last()).unwrap(),
        ),
    decreases args.len(),
{
    if args.len() == 1 {
        assert(args.drop_first() =~= Seq::<CallArg>::empty());
        assert(spec_encode_args(args.drop_last()) == Some(Seq::<u8>::empty()));
        assert(spec_encode_args(args).unwrap() =~= spec_encode_args(
            args.drop_last(),
        ).unwrap() + spec_encode_arg(args.last()).unwrap());
    } else {
        let tail = args.drop_first();
        assert(args.drop_last().drop_first() =~= tail.drop_last());
        assert(args.drop_last()[0] == args[0]);
        lemma_encode_args_append_one(tail);
        assert(tail.last() == args.last());
        assert(spec_encode_args(args).unwrap() =~= spec_encode_args(
            args.drop_last(),
        ).unwrap() + spec_encode_arg(args.last()).unwrap());
    }
}

// ---------------------------------------------------------------------------
// Whole-call encoding
// ---------------------------------------------------------------------------

/// The selector-prefixed payload of a call, or the error that encoding
/// reports: `InvalidMethod` for an unregistered name, else `ConversionError`
/// for an unsupported argument kind.
pub open spec fn spec_encode_call(m: Seq<char>, args: Seq<CallArg>) -> Result<Seq<u8>, CliError> {
    match spec_selector(m) {
        None => Err(CliError::InvalidMethod),
        Some(sel) => match spec_encode_args(args) {
            None => Err(CliError::ConversionError),
            Some(enc) => Ok(sel + enc),
        },
    }
}

/// Encodes a method call as its four-byte selector followed by the encoded
/// arguments.
pub fn encode_call(method: &str, args: &Vec<CallArg>) -> (r: Result<Vec<u8>, CliError>)
    requires
        forall|i: int| 0 <= i < args@.len() ==> arg_len_ok(#[trigger] args@[i]),
    ensures
        r matches Ok(v) ==> spec_encode_call(method@, args@) == Ok::<Seq<u8>, CliError>(v@),
        r matches Err(e) ==> spec_encode_call(method@, args@) == Err::<Seq<u8>, CliError>(e),
{
    let sel = match selector_of(method) {
        Some(s) => s,
        None => {
            return Err(CliError::InvalidMethod);
        },
    };
    let enc = match encode_args(args) {
        Ok(v) => v,
        Err(e) => {
            return Err(e);
        },
    };
    let mut out = sel;
    let mut enc = enc;
    out.append(&mut enc);
    Ok(out)
}

/// An unregistered method name always fails with `InvalidMethod`, whatever
/// the arguments.
pub proof fn lemma_encode_unknown_method(m: Seq<char>, args: Seq<CallArg>)
    requires
        spec_selector(m) is None,
    ensures
        spec_encode_call(m, args) == Err::<Seq<u8>, CliError>(CliError::InvalidMethod),
{
}

/// A registered method with an argument of unsupported kind always fails
/// with `ConversionError`.
pub proof fn lemma_encode_unsupported_arg(m: Seq<char>, args: Seq<CallArg>, i: int)
    requires
        spec_selector(m) is Some,
        0 <= i < args.len(),
        spec_encode_arg(args[i]) is None,
    ensures
        spec_encode_call(m, args) == Err::<Seq<u8>, CliError>(CliError::ConversionError),
{
    lemma_encode_args_bad(args, i);
}

// ---------------------------------------------------------------------------
// Result decoding
// ---------------------------------------------------------------------------

/// The unsigned 128-bit value read from the first sixteen bytes of a raw
/// result, little-endian; `None` when fewer than sixteen bytes came back.
pub open spec fn spec_extract_u128(output: Seq<u8>) -> Option<u128> {
    if output.len() >= 16 {
        Some(spec_u128_from_le_bytes(output.subrange(0, 16)))
    } else {
        None
    }
}

/// Decodes an unsigned 128-bit value from the head of a raw call result.
pub fn extract_u128(output: &[u8]) -> (r: Option<u128>)
    ensures
        r == spec_extract_u128(output@),
{
    if output.len() >= 16 {
        let head = slice_subrange(output, 0, 16);
        Some(u128_from_le_bytes(head))
    } else {
        None
    }
}

/// Reads a token identifier out of a raw contract call result.
pub fn extract_token_id_from_result(output: &[u8]) -> (r: Option<u128>)
    ensures
        r == spec_extract_u128(output@),
{
    extract_u128(output)
}

/// Reads a balance out of a raw contract call result.
pub fn extract_balance_from_result(output: &[u8]) -> (r: Option<u128>)
    ensures
        r == spec_extract_u128(output@),
{
    extract_u128(output)
}

/// The text read from a length-prefixed raw result: the first four bytes,
/// little-endian, give a byte count `n`; the following `n` bytes must be
/// present and valid UTF-8.
pub open spec fn spec_extract_string(output: Seq<u8>) -> Option<Seq<char>> {
    if output.len() < 4 {
        None
    } else {
        let n = spec_u32_from_le_bytes(output.subrange(0, 4)) as int;
        if output.len() < 4 + n {
            None
        } else {
            let body = output.subrange(4, 4 + n);
            if valid_utf8(body) {
                Some(decode_utf8(body))
            } else {
                None
            }
        }
    }
}

/// Decodes a length-prefixed UTF-8 string from a raw call result.
pub fn extract_string(output: &[u8]) -> (r: Option<String>)
    ensures
        r matches Some(s) ==> spec_extract_string(output@) == Some(s@),
        r is None <==> spec_extract_string(output@) is None,
{
    if output.len() < 4 {
        return None;
    }
    let prefix = slice_subrange(output, 0, 4);
    let n = u32_from_le_bytes(prefix) as usize;
    if output.len() - 4 < n {
        return None;
    }
    let body = slice_subrange(output, 4, 4 + n);
    let body_vec = vstd::slice::slice_to_vec(body);
    crate::text::string_from_utf8(body_vec)
}

/// Reads a token URI out of a raw contract call result.
pub fn extract_uri_from_result(output: &[u8]) -> (r: Option<String>)
    ensures
        r matches Some(s) ==> spec_extract_string(output@) == Some(s@),
        r is None <==> spec_extract_string(output@) is None,
{
    extract_string(output)
}

/// Computes the four-byte selector of a method signature: the head of the
/// signature's Keccak digest.
pub fn compute_selector(signature: &str) -> (r: Vec<u8>)
    ensures
        r@ == crate::hashing::keccak_256_of(signature.spec_bytes()).take(4),
        r@.len() == 4,
{
    let mut h = crate::hashing::hash_keccak_256(signature.as_bytes());
    h.truncate(4);
    h
}

/// The balance held in a raw storage value: the first sixteen bytes,
/// little-endian; zero when the value is shorter.
pub open spec fn spec_storage_balance(v: Seq<u8>) -> u128 {
    if v.len() >= 16 {
        spec_u128_from_le_bytes(v.subrange(0, 16))
    } else {
        0
    }
}

/// Decodes the balance read from raw contract storage; a value too short to
/// hold one counts as zero.
pub fn decode_storage_balance(value: &[u8]) -> (r: u128)
    ensures
        r == spec_storage_balance(value@),
{
    match extract_u128(value) {
        Some(v) => v,
        None => 0,
    }
}

/// The text held in a raw storage value: its length-prefixed decoding when
/// that succeeds, else the whole value read as UTF-8, else nothing.
pub open spec fn spec_storage_uri(v: Seq<u8>) -> Option<Seq<char>> {
    match spec_extract_string(v) {
        Some(s) => Some(s),
        None => if valid_utf8(v) {
            Some(decode_utf8(v))
        } else {
            None
        },
    }
}

/// Decodes the token URI read from raw contract storage.
pub fn decode_storage_uri(value: &[u8]) -> (r: Option<String>)
    ensures
        r matches Some(s) ==> spec_storage_uri(value@) == Some(s@),
        r is None <==> spec_storage_uri(value@) is None,
{
    match extract_string(value) {
        Some(s) => Some(s),
        None => crate::text::string_from_utf8(vstd::slice::slice_to_vec(value)),
    }
}

/// The token identifier carried by an emitted creation event: present when
/// the data opens with the expected four-byte event selector, followed by at
/// least sixteen identifier bytes, little-endian.
pub open spec fn spec_event_token_id(data: Seq<u8>, selector: Seq<u8>) -> Option<u128> {
    if data.len() >= 20 && data.subrange(0, 4) == selector {
        Some(spec_u128_from_le_bytes(data.subrange(4, 20)))
    } else {
        None
    }
}

/// Reads the new token's identifier out of an emitted event's data, checking
/// the event selector first.
pub fn extract_event_token_id(data: &[u8], selector: &[u8]) -> (r: Option<u128>)
    requires
        selector@.len() == 4,
    ensures
        r == spec_event_token_id(data@, selector@),
{
    if data.len() < 20 {
        return None;
    }
    let head = slice_subrange(data, 0, 4);
    if !bytes_eq(head, selector) {
        return None;
    }
    let id_bytes = slice_subrange(data, 4, 20);
    Some(u128_from_le_bytes(id_bytes))
}

// ---------------------------------------------------------------------------
// Round trips
// ---------------------------------------------------------------------------

/// Encoding an unsigned 128-bit value and decoding the result yields the
/// value again.
pub proof fn lemma_u128_round_trip(v: u128)
    ensures
        spec_extract_u128(spec_encode_arg(CallArg::U128(v)).unwrap()) == Some(v),
{
    lemma_auto_spec_u128_to_from_le_bytes();
    assert(spec_u128_to_le_bytes(v).subrange(0, 16) =~= spec_u128_to_le_bytes(v));
}

/// Encoding a string and decoding the result yields the string again.
pub proof fn lemma_string_round_trip(s: Seq<char>)
    requires
        encode_utf8(s).len() < 0x1_0000_0000,
    ensures
        spec_extract_string(
            spec_u32_to_le_bytes(encode_utf8(s).len() as u32) + encode_utf8(s),
        ) == Some(s),
{
    let bytes = encode_utf8(s);
    let n = bytes.len() as u32;
    let enc = spec_u32_to_le_bytes(n) + bytes;
    lemma_auto_spec_u32_to_from_le_bytes();
    assert(enc.subrange(0, 4) =~= spec_u32_to_le_bytes(n));
    assert(enc.subrange(4, 4 + n as int) =~= bytes);
    vstd::utf8::encode_utf8_valid_utf8(s);
    vstd::utf8::encode_utf8_decode_utf8(s);
}

} // verus!
