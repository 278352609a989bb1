//! Thirty-two byte account identifiers and their textual parsing.

use vstd::prelude::*;
use vstd::utf8::encode_utf8;
use vstd::string::{StringSliceAdditionalSpecFns, StrSliceExecFns};

use crate::error::CliError;
use crate::text::spec_hex_decode;

verus! {

/// A thirty-two byte account identifier, as the ledger addresses accounts
/// and contracts.
#[derive(Debug)]
pub struct AccountId {
    bytes: Vec<u8>,
}

impl View for AccountId {
    type V = Seq<u8>;

    closed spec fn view(&self) -> Seq<u8> {
        self.bytes@
    }
}

impl Clone for AccountId {
    fn clone(&self) -> (r: Self)
        ensures
            r@ == self@,
    {
        AccountId { bytes: self.bytes.clone() }
    }
}

impl AccountId {
    /// The identifier holds exactly thirty-two bytes.
    pub open spec fn wf(&self) -> bool {
        self@.len() == 32
    }

    /// Wraps thirty-two raw bytes; `None` for any other length.
    pub fn from_bytes(bytes: Vec<u8>) -> (r: Option<AccountId>)
        ensures
            bytes@.len() == 32 ==> (r matches Some(a) && a@ == bytes@ && a.wf()),
            bytes@.len() != 32 ==> r is None,
    {
        if bytes.len() == 32 {
            Some(AccountId { bytes })
        } else {
            None
        }
    }

    /// The raw bytes of the identifier.
    pub fn as_bytes(&self) -> (r: &[u8])
        ensures
            r@ == self@,
    {
        self.bytes.as_slice()
    }
}

/// The character sequence with every leading `0x` pair removed.
pub open spec fn strip_0x(s: Seq<char>) -> Seq<char>
    decreases s.len(),
{
    if s.len() >= 2 && s[0] == '0' && s[1] == 'x' {
        strip_0x(s.subrange(2, s.len() as int))
    } else {
        s
    }
}

/// The account parsed from a hexadecimal string: after stripping any leading
/// `0x` pairs, the text must spell exactly thirty-two bytes; anything else is
/// `InvalidAddress`.
pub open spec fn spec_parse_account(s: Seq<char>) -> Result<Seq<u8>, CliError> {
    match spec_hex_decode(encode_utf8(strip_0x(s))) {
        Some(v) => if v.len() == 32 {
            Ok(v)
        } else {
            Err(CliError::InvalidAddress)
        },
        None => Err(CliError::InvalidAddress),
    }
}

/// Parses an account identifier from hexadecimal text, tolerating a leading
/// `0x` prefix.
pub fn parse_account(s: &str) -> (r: Result<AccountId, CliError>)
    ensures
        r matches Ok(a) ==> a.wf() && spec_parse_account(s@) == Ok::<Seq<u8>, CliError>(a@),
        r matches Err(e) ==> spec_parse_account(s@) == Err::<Seq<u8>, CliError>(e),
{
    let mut t: &str = s;
    let mut tlen = t.unicode_len();
    while tlen >= 2 && t.get_char(0) == '0' && t.get_char(1) == 'x'
        invariant
            tlen == t@.len(),
            strip_0x(s@) == strip_0x(t@),
        decreases tlen,
    {
        let next = t.substring_char(2, tlen);
        proof {
            assert(strip_0x(t@) == strip_0x(t@.subrange(2, t@.len() as int)));
        }
        t = next;
        tlen = tlen - 2;
    }
    proof {
        assert(strip_0x(t@) == t@);
    }
    let decoded = crate::text::hex_decode_bytes(t.as_bytes());
    match decoded {
        Some(v) => {
            if v.len() == 32 {
                let a = AccountId { bytes: v };
                Ok(a)
            } else {
                Err(CliError::InvalidAddress)
            }
        },
        None => Err(CliError::InvalidAddress),
    }
}

} // verus!
