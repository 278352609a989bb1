//! The local persistent mirror of token, balance, listener and
//! contract-address records.
//!
//! Records are addressed by namespaced UTF-8 string keys — `token:{id}`,
//! `balance:{token_id}:{hex(account)}`, `price_listener:{token_id}`,
//! `contract_address` — and hold the field-by-field binary encoding of the
//! record. The mirror is advisory: the ledger remains the source of truth.

use vstd::prelude::*;
use vstd::seq_lib::*;
use vstd::string::{StringSliceAdditionalSpecFns, StrSliceExecFns};

use crate::account::AccountId;
use crate::error::CliError;
use crate::kvstore::{KvStore, kv_contents, kv_empty};
use crate::records::{
    Token, Balance, BalanceView, spec_encode_token, spec_decode_token, spec_encode_balance, spec_decode_balance,
    encode_token, decode_token, encode_balance, decode_balance, spec_dec_bytes32,
};
use crate::text::{dec_digits, hex_bytes_of, u128_to_dec_bytes, hex_encode_bytes};
use crate::trigger::{
    PriceListener, PriceAction, ListenerView, spec_encode_listener, spec_decode_listener,
    encode_listener, decode_listener, spec_fires,
};

verus! {

// ---------------------------------------------------------------------------
// Persisted keys
// ---------------------------------------------------------------------------

/// The key of a token record: `token:{id}`.
pub open spec fn spec_token_key(id: u128) -> Seq<u8> {
    "token:".spec_bytes() + dec_digits(id as nat)
}

/// The key of a balance record: `balance:{token_id}:{hex(account)}`.
pub open spec fn spec_balance_key(token_id: u128, account: Seq<u8>) -> Seq<u8> {
    "balance:".spec_bytes() + dec_digits(token_id as nat) + ":".spec_bytes() + hex_bytes_of(account)
}

/// The key of a listener record: `price_listener:{token_id}`.
pub open spec fn spec_listener_key(token_id: u128) -> Seq<u8> {
    "price_listener:".spec_bytes() + dec_digits(token_id as nat)
}

/// The prefix shared by all listener keys.
pub open spec fn spec_listener_prefix() -> Seq<u8> {
    "price_listener:".spec_bytes()
}

/// The key of the stored contract address.
pub open spec fn spec_contract_address_key() -> Seq<u8> {
    "contract_address".spec_bytes()
}

/// The key namespaces are collision-free across record kinds: a token key,
/// a balance key, a listener key and the contract-address key never
/// coincide, whatever identifiers and accounts they carry — each namespace
/// opens with its own first letter.
pub proof fn lemma_key_namespaces_disjoint(
    id: u128,
    token_id: u128,
    account: Seq<u8>,
    listener_id: u128,
)
    ensures
        spec_token_key(id) != spec_balance_key(token_id, account),
        spec_token_key(id) != spec_listener_key(listener_id),
        spec_token_key(id) != spec_contract_address_key(),
        spec_balance_key(token_id, account) != spec_listener_key(listener_id),
        spec_balance_key(token_id, account) != spec_contract_address_key(),
        spec_listener_key(listener_id) != spec_contract_address_key(),
{
    reveal_strlit("token:");
    reveal_strlit("balance:");
    reveal_strlit("price_listener:");
    reveal_strlit("contract_address");
    broadcast use vstd::string::is_ascii_spec_bytes;

    assert(vstd::string::is_ascii("token:"));
    assert(vstd::string::is_ascii("balance:"));
    assert(vstd::string::is_ascii("price_listener:"));
    assert(vstd::string::is_ascii("contract_address"));
    assert(spec_token_key(id)[0] == 't' as u8);
    assert(spec_balance_key(token_id, account)[0] == 'b' as u8);
    assert(spec_listener_key(listener_id)[0] == 'p' as u8);
    assert(spec_contract_address_key()[0] == 'c' as u8);
}

/// Builds the key of a token record.
fn token_key_bytes(id: u128) -> (r: Vec<u8>)
    ensures
        r@ == spec_token_key(id),
{
    let mut k = "token:".as_bytes_vec();
    let mut digits = u128_to_dec_bytes(id);
    k.append(&mut digits);
    k
}

/// Builds the key of a balance record.
fn balance_key_bytes(token_id: u128, account: &AccountId) -> (r: Vec<u8>)
    ensures
        r@ == spec_balance_key(token_id, account@),
{
    let mut k = "balance:".as_bytes_vec();
    let mut digits = u128_to_dec_bytes(token_id);
    k.append(&mut digits);
    let mut sep = ":".as_bytes_vec();
    k.append(&mut sep);
    let mut hexed = hex_encode_bytes(account.as_bytes());
    k.append(&mut hexed);
    proof {
        assert(k@ =~= spec_balance_key(token_id, account@));
    }
    k
}

/// Builds the key of a listener record.
fn listener_key_bytes(token_id: u128) -> (r: Vec<u8>)
    ensures
        r@ == spec_listener_key(token_id),
{
    let mut k = "price_listener:".as_bytes_vec();
    let mut digits = u128_to_dec_bytes(token_id);
    k.append(&mut digits);
    k
}

/// Some stored listener record decodes to `l`.
pub open spec fn listener_stored(contents: Map<Seq<u8>, Seq<u8>>, l: PriceListener) -> bool {
    exists|k: Seq<u8>|
        contents.contains_key(k) && spec_listener_prefix().is_prefix_of(k) && spec_decode_listener(
            #[trigger] contents[k],
        ) == Some(l@)
}

/// Some element of `ls` has the content `v`.
pub open spec fn listener_listed(ls: Seq<PriceListener>, v: ListenerView) -> bool {
    exists|i: int| 0 <= i < ls.len() && (#[trigger] ls[i])@ == v
}

/// The listener sequence `ls` is exactly what the store holds: every element
/// is well formed and decodes from some stored listener record, and every
/// stored listener record decodes and appears among the elements.
pub open spec fn listeners_complete(contents: Map<Seq<u8>, Seq<u8>>, ls: Seq<PriceListener>) -> bool {
    &&& forall|i: int|
        0 <= i < ls.len() ==> (#[trigger] ls[i]).wf() && listener_stored(contents, ls[i])
    &&& forall|k: Seq<u8>|
        #![trigger contents[k]]
        contents.contains_key(k) && spec_listener_prefix().is_prefix_of(k) ==> {
            &&& spec_decode_listener(contents[k]) is Some
            &&& listener_listed(ls, spec_decode_listener(contents[k]).unwrap())
        }
}

/// A decoded scan of the listener namespace is exactly what the store holds.
#[verifier::rlimit(100)]
#[verifier::spinoff_prover]
proof fn lemma_listeners_post(
    contents: Map<Seq<u8>, Seq<u8>>,
    prefix: Seq<u8>,
    keys: Seq<Seq<u8>>,
    vals: Seq<Seq<u8>>,
    out: Seq<PriceListener>,
)
    requires
        prefix == spec_listener_prefix(),
        vals.len() == keys.len(),
        out.len() == keys.len(),
        forall|l: int| 0 <= l < keys.len() ==> prefix.is_prefix_of(#[trigger] keys[l]),
        forall|l: int| 0 <= l < keys.len() ==> contents.contains_key(#[trigger] keys[l]),
        forall|l: int| 0 <= l < keys.len() ==> contents[#[trigger] keys[l]] == vals[l],
        forall|k: Seq<u8>|
            #![trigger contents[k]]
            contents.contains_key(k) && prefix.is_prefix_of(k) ==> exists|l: int|
                0 <= l < keys.len() && #[trigger] keys[l] == k,
        forall|l: int|
            0 <= l < out.len() ==> spec_decode_listener(#[trigger] vals[l]) == Some(out[l]@)
                && out[l].wf(),
    ensures
        listeners_complete(contents, out),
{
    assert forall|i: int| 0 <= i < out.len() implies (#[trigger] out[i]).wf() && listener_stored(
        contents,
        out[i],
    ) by {
        let k = keys[i];
        assert(contents.contains_key(k) && spec_listener_prefix().is_prefix_of(k)
            && spec_decode_listener(contents[k]) == Some(out[i]@));
    }
    assert forall|k: Seq<u8>|
        #![trigger contents[k]]
        contents.contains_key(k) && spec_listener_prefix().is_prefix_of(k) implies {
        &&& spec_decode_listener(contents[k]) is Some
        &&& listener_listed(out, spec_decode_listener(contents[k]).unwrap())
    } by {
        let l = choose|l: int| 0 <= l < keys.len() && #[trigger] keys[l] == k;
        assert(spec_decode_listener(vals[l]) == Some(out[l]@));
        assert(0 <= l < out.len() && out[l]@ == spec_decode_listener(contents[k]).unwrap());
    }
}

/// A token read back after being stored is the stored token: the record put
/// under its key decodes to the value written.
pub proof fn lemma_get_after_store_token(contents: Map<Seq<u8>, Seq<u8>>, t: crate::records::TokenView)
    requires
        t.wf(),
    ensures
        ({
            let c1 = contents.insert(spec_token_key(t.id), spec_encode_token(t));
            c1.contains_key(spec_token_key(t.id)) && spec_decode_token(
                c1[spec_token_key(t.id)],
            ) == Some(t)
        }),
{
    crate::records::lemma_token_round_trip(t);
}

/// A listener created for a token is what a later lookup of that token
/// decodes, so the trigger decision evaluates exactly the stored condition.
pub proof fn lemma_get_after_create_listener(contents: Map<Seq<u8>, Seq<u8>>, l: ListenerView)
    requires
        l.wf(),
    ensures
        ({
            let c1 = contents.insert(spec_listener_key(l.token_id), spec_encode_listener(l));
            c1.contains_key(spec_listener_key(l.token_id)) && spec_decode_listener(
                c1[spec_listener_key(l.token_id)],
            ) == Some(l)
        }),
{
    crate::trigger::lemma_listener_round_trip(l);
}

// ---------------------------------------------------------------------------
// Saturating balance arithmetic
// ---------------------------------------------------------------------------

/// Subtraction clamped at zero.
pub open spec fn spec_sat_sub(a: u128, b: u128) -> u128 {
    if a >= b {
        (a - b) as u128
    } else {
        0
    }
}

/// Addition clamped at the largest unsigned 128-bit value.
pub open spec fn spec_sat_add(a: u128, b: u128) -> u128 {
    if a + b <= u128::MAX {
        (a + b) as u128
    } else {
        u128::MAX
    }
}

/// A mirrored balance update never goes negative: subtracting more than is
/// stored clamps the result to zero instead of wrapping, and otherwise
/// subtracts exactly.
pub proof fn lemma_balance_never_negative(stored: u128, sub: u128)
    ensures
        sub >= stored ==> spec_sat_sub(stored, sub) == 0,
        sub < stored ==> spec_sat_sub(stored, sub) == stored - sub,
{
}

/// The amount a contents map mirrors for an account and token: zero when no
/// record is stored, nothing when the stored record does not decode.
pub open spec fn spec_mirror_amount(
    contents: Map<Seq<u8>, Seq<u8>>,
    token_id: u128,
    account: Seq<u8>,
) -> Option<u128> {
    if contents.contains_key(spec_balance_key(token_id, account)) {
        match spec_decode_balance(contents[spec_balance_key(token_id, account)]) {
            Some(b) => Some(b.amount),
            None => None,
        }
    } else {
        Some(0)
    }
}

/// The contents `c1` are `c0` with a transfer mirrored: the sender's record
/// debited with saturation, then the recipient's record — read after the
/// debit, so a self-transfer credits the debited value — credited with
/// saturation.
pub open spec fn transfer_applied(
    c0: Map<Seq<u8>, Seq<u8>>,
    c1: Map<Seq<u8>, Seq<u8>>,
    token_id: u128,
    from: Seq<u8>,
    to: Seq<u8>,
    amount: u128,
) -> bool {
    match spec_mirror_amount(c0, token_id, from) {
        None => false,
        Some(fa) => {
            let mid = c0.insert(
                spec_balance_key(token_id, from),
                spec_encode_balance(
                    BalanceView { account: from, token_id, amount: spec_sat_sub(fa, amount) },
                ),
            );
            match spec_mirror_amount(mid, token_id, to) {
                None => false,
                Some(ta) => c1 == mid.insert(
                    spec_balance_key(token_id, to),
                    spec_encode_balance(
                        BalanceView { account: to, token_id, amount: spec_sat_add(ta, amount) },
                    ),
                ),
            }
        },
    }
}

// ---------------------------------------------------------------------------
// The mirror
// ---------------------------------------------------------------------------

/// The persistent mirror, wrapping the byte-keyed store.
pub struct StorageSled {
    kv: KvStore,
}

impl StorageSled {
    /// What the mirror currently persists, as a map from key bytes to value
    /// bytes.
    pub closed spec fn contents(self) -> Map<Seq<u8>, Seq<u8>> {
        kv_contents(self.kv)
    }

    /// Opens or creates the mirror's database at `path`. Failure here is the
    /// only fatal condition: no mirror is constructed.
    pub fn new(path: &str) -> (r: Result<StorageSled, CliError>)
        ensures
            r matches Err(e) ==> e == CliError::StoreFailed,
    {
        match KvStore::open(path) {
            Ok(kv) => Ok(StorageSled { kv }),
            Err(e) => Err(e),
        }
    }

    /// Opens a mirror on fresh temporary storage, which starts empty and is
    /// removed on drop.
    pub fn open_temporary() -> (r: Result<StorageSled, CliError>)
        ensures
            r matches Ok(s) ==> s.contents() == kv_empty(),
            r matches Err(e) ==> e == CliError::StoreFailed,
    {
        match KvStore::open_temporary() {
            Ok(kv) => Ok(StorageSled { kv }),
            Err(e) => Err(e),
        }
    }

    /// Stores a new or updated token record under `token:{id}`; a record
    /// with the same identifier is overwritten.
    pub fn store_token(&mut self, token: &Token) -> (r: Result<(), CliError>)
        requires
            token.wf(),
        ensures
            r matches Ok(()) ==> final(self).contents() == old(self).contents().insert(
                spec_token_key(token.id),
                spec_encode_token(token@),
            ),
            r matches Err(e) ==> e == CliError::StoreFailed,
    {
        let key = token_key_bytes(token.id);
        let value = encode_token(token);
        self.kv.put(key.as_slice(), value.as_slice())
    }

    /// Retrieves the token stored under `token:{id}`, if any.
    pub fn get_token(&self, token_id: u128) -> (r: Result<Option<Token>, CliError>)
        ensures
            r matches Ok(Some(t)) ==> {
                &&& self.contents().contains_key(spec_token_key(token_id))
                &&& spec_decode_token(self.contents()[spec_token_key(token_id)]) == Some(t@)
                &&& t.wf()
            },
            r matches Ok(None) ==> !self.contents().contains_key(spec_token_key(token_id)),
            r matches Err(e) ==> e == CliError::StoreFailed || (e == CliError::ParseError
                && self.contents().contains_key(spec_token_key(token_id)) && spec_decode_token(
                self.contents()[spec_token_key(token_id)],
            ) is None),
    {
        let key = token_key_bytes(token_id);
        match self.kv.get(key.as_slice()) {
            Ok(Some(v)) => match decode_token(v.as_slice()) {
                Some(t) => Ok(Some(t)),
                None => Err(CliError::ParseError),
            },
            Ok(None) => Ok(None),
            Err(e) => Err(e),
        }
    }

    /// Stores a balance record under `balance:{token_id}:{hex(account)}`;
    /// the (account, token) pair collapses to a single slot.
    pub fn update_balance(&mut self, balance: &Balance) -> (r: Result<(), CliError>)
        requires
            balance.wf(),
        ensures
            r matches Ok(()) ==> final(self).contents() == old(self).contents().insert(
                spec_balance_key(balance.token_id, balance.account@),
                spec_encode_balance(balance@),
            ),
            r matches Err(e) ==> e == CliError::StoreFailed,
    {
        let key = balance_key_bytes(balance.token_id, &balance.account);
        let value = encode_balance(balance);
        self.kv.put(key.as_slice(), value.as_slice())
    }

    /// Returns the mirrored amount held by `account` for the token; zero
    /// when no record is stored.
    pub fn get_balance(&self, account: &AccountId, token_id: u128) -> (r: Result<u128, CliError>)
        requires
            account.wf(),
        ensures
            r matches Ok(v) ==> {
                &&& self.contents().contains_key(spec_balance_key(token_id, account@))
                    ==> (spec_decode_balance(
                    self.contents()[spec_balance_key(token_id, account@)],
                ) matches Some(b) && v == b.amount)
                &&& !self.contents().contains_key(spec_balance_key(token_id, account@)) ==> v == 0
            },
            r matches Err(e) ==> e == CliError::StoreFailed || (e == CliError::ParseError
                && self.contents().contains_key(spec_balance_key(token_id, account@))
                && spec_decode_balance(
                self.contents()[spec_balance_key(token_id, account@)],
            ) is None),
    {
        let key = balance_key_bytes(token_id, account);
        match self.kv.get(key.as_slice()) {
            Ok(Some(v)) => match decode_balance(v.as_slice()) {
                Some(b) => Ok(b.amount),
                None => Err(CliError::ParseError),
            },
            Ok(None) => Ok(0),
            Err(e) => Err(e),
        }
    }

    /// Stores a listener under `price_listener:{token_id}`: an upsert, so at
    /// most one listener exists per token and a new one overwrites the old.
    pub fn set_price_listener(&mut self, listener: &PriceListener) -> (r: Result<(), CliError>)
        requires
            listener.wf(),
        ensures
            r matches Ok(()) ==> final(self).contents() == old(self).contents().insert(
                spec_listener_key(listener.token_id),
                spec_encode_listener(listener@),
            ),
            r matches Err(e) ==> e == CliError::StoreFailed,
    {
        let key = listener_key_bytes(listener.token_id);
        let value = encode_listener(listener);
        self.kv.put(key.as_slice(), value.as_slice())
    }

    /// Creates and stores an enabled listener for the token, overwriting any
    /// prior listener for it.
    pub fn create_price_listener(
        &mut self,
        token_id: u128,
        target_price: u128,
        action: PriceAction,
    ) -> (r: Result<(), CliError>)
        requires
            action@.wf(),
        ensures
            r matches Ok(()) ==> final(self).contents() == old(self).contents().insert(
                spec_listener_key(token_id),
                spec_encode_listener(
                    ListenerView { token_id, target_price, action: action@, enabled: true },
                ),
            ),
            r matches Err(e) ==> e == CliError::StoreFailed,
    {
        let listener = PriceListener { token_id, target_price, action, enabled: true };
        self.set_price_listener(&listener)
    }

    /// Retrieves the listener stored for the token, if any.
    pub fn get_price_listener(&self, token_id: u128) -> (r: Result<Option<PriceListener>, CliError>)
        ensures
            r matches Ok(Some(l)) ==> {
                &&& self.contents().contains_key(spec_listener_key(token_id))
                &&& spec_decode_listener(self.contents()[spec_listener_key(token_id)]) == Some(l@)
                &&& l.wf()
            },
            r matches Ok(None) ==> !self.contents().contains_key(spec_listener_key(token_id)),
            r matches Err(e) ==> e == CliError::StoreFailed || (e == CliError::ParseError
                && self.contents().contains_key(spec_listener_key(token_id))
                && spec_decode_listener(self.contents()[spec_listener_key(token_id)]) is None),
    {
        let key = listener_key_bytes(token_id);
        match self.kv.get(key.as_slice()) {
            Ok(Some(v)) => match decode_listener(v.as_slice()) {
                Some(l) => Ok(Some(l)),
                None => Err(CliError::ParseError),
            },
            Ok(None) => Ok(None),
            Err(e) => Err(e),
        }
    }

    /// Returns every stored listener, in the store's own iteration order,
    /// which carries no meaning.
    pub fn get_price_listeners(&self) -> (r: Result<Vec<PriceListener>, CliError>)
        ensures
            r matches Ok(ls) ==> listeners_complete(self.contents(), ls@),
            r matches Err(e) ==> e == CliError::StoreFailed || e == CliError::ParseError,
    {
        let prefix = "price_listener:".as_bytes_vec();
        let pairs = match self.kv.scan_prefix(prefix.as_slice()) {
            Ok(p) => p,
            Err(e) => {
                return Err(e);
            },
        };
        let ghost keys: Seq<Seq<u8>> = pairs@.map_values(|p: (Vec<u8>, Vec<u8>)| p.0@);
        let ghost vals: Seq<Seq<u8>> = pairs@.map_values(|p: (Vec<u8>, Vec<u8>)| p.1@);
        let mut out: Vec<PriceListener> = Vec::new();
        let n = pairs.len();
        let mut i: usize = 0;
        while i < n
            invariant
                n == pairs@.len(),
                i <= n,
                out@.len() == i,
                vals == pairs@.map_values(|p: (Vec<u8>, Vec<u8>)| p.1@),
                forall|l: int|
                    0 <= l < i ==> spec_decode_listener(#[trigger] vals[l]) == Some(out@[l]@)
                        && out@[l].wf(),
            decreases n - i,
        {
            let (_k, v) = &pairs[i];
            proof {
                assert(vals[i as int] == v@);
            }
            match decode_listener(v.as_slice()) {
                Some(l) => {
                    out.push(l);
                },
                None => {
                    return Err(CliError::ParseError);
                },
            }
            i += 1;
        }
        proof {
            assert forall|l: int| 0 <= l < keys.len() implies spec_listener_prefix().is_prefix_of(
                #[trigger] keys[l],
            ) && self.contents().contains_key(keys[l]) && self.contents()[keys[l]] == vals[l] by {
                assert(keys[l] == (#[trigger] pairs@[l]).0@);
                assert(vals[l] == pairs@[l].1@);
            }
            assert forall|k: Seq<u8>|
                #![trigger self.contents()[k]]
                self.contents().contains_key(k) && spec_listener_prefix().is_prefix_of(
                    k,
                ) implies exists|l: int| 0 <= l < keys.len() && #[trigger] keys[l] == k by {
                let l = choose|l: int| 0 <= l < pairs@.len() && (#[trigger] pairs@[l]).0@ == k;
                assert(keys[l] == k);
            }
            lemma_listeners_post(self.contents(), spec_listener_prefix(), keys, vals, out@);
        }
        Ok(out)
    }

    /// Stores the contract address under `contract_address`, as its
    /// thirty-two raw bytes.
    pub fn store_contract_address(&mut self, address: &AccountId) -> (r: Result<(), CliError>)
        requires
            address.wf(),
        ensures
            r matches Ok(()) ==> final(self).contents() == old(self).contents().insert(
                spec_contract_address_key(),
                address@,
            ),
            r matches Err(e) ==> e == CliError::StoreFailed,
    {
        let key = "contract_address".as_bytes_vec();
        self.kv.put(key.as_slice(), address.as_bytes())
    }

    /// Retrieves the stored contract address, if any.
    pub fn get_contract_address(&self) -> (r: Result<Option<AccountId>, CliError>)
        ensures
            r matches Ok(Some(a)) ==> {
                &&& self.contents().contains_key(spec_contract_address_key())
                &&& spec_dec_bytes32(self.contents()[spec_contract_address_key()]) matches Some(p)
                    && a@ == p.0
                &&& a.wf()
            },
            r matches Ok(None) ==> !self.contents().contains_key(spec_contract_address_key()),
            r matches Err(e) ==> e == CliError::StoreFailed || (e == CliError::ParseError
                && self.contents().contains_key(spec_contract_address_key()) && spec_dec_bytes32(
                self.contents()[spec_contract_address_key()],
            ) is None),
    {
        let key = "contract_address".as_bytes_vec();
        match self.kv.get(key.as_slice()) {
            Ok(Some(v)) => {
                match crate::records::read_account(v.as_slice(), 0) {
                    Some((a, _next)) => {
                        proof {
                            assert(v@.skip(0) =~= v@);
                        }
                        Ok(Some(a))
                    },
                    None => {
                        proof {
                            assert(v@.skip(0) =~= v@);
                        }
                        Err(CliError::ParseError)
                    },
                }
            },
            Ok(None) => Ok(None),
            Err(e) => Err(e),
        }
    }

    /// Records which deployed contract this mirror tracks; on-chain records
    /// themselves are mirrored by explicit store calls, not synced here.
    pub fn sync_from_blockchain(&mut self, contract_address: &AccountId) -> (r: Result<
        (),
        CliError,
    >)
        requires
            contract_address.wf(),
        ensures
            r matches Ok(()) ==> final(self).contents() == old(self).contents().insert(
                spec_contract_address_key(),
                contract_address@,
            ),
            r matches Err(e) ==> e == CliError::StoreFailed,
    {
        self.store_contract_address(contract_address)
    }

    /// Mirrors a transfer locally: debits `from` and credits `to`, each
    /// saturating, so an amount larger than the stored balance clamps the
    /// debited side to zero and a credit never wraps. Two separate writes:
    /// a crash between them leaves only the debit applied; the mirror is
    /// advisory and the ledger remains the source of truth.
    pub fn apply_transfer(
        &mut self,
        from: &AccountId,
        to: &AccountId,
        token_id: u128,
        amount: u128,
    ) -> (r: Result<(), CliError>)
        requires
            from.wf(),
            to.wf(),
        ensures
            r matches Ok(()) ==> spec_mirror_amount(old(self).contents(), token_id, from@)
                matches Some(fa) && transfer_applied(
                old(self).contents(),
                final(self).contents(),
                token_id,
                from@,
                to@,
                amount,
            ),
            r matches Err(e) ==> e == CliError::StoreFailed || e == CliError::ParseError,
    {
        let from_amount = match self.get_balance(from, token_id) {
            Ok(v) => v,
            Err(e) => {
                return Err(e);
            },
        };
        let debited = Balance {
            account: from.clone(),
            token_id,
            amount: if from_amount >= amount {
                from_amount - amount
            } else {
                0
            },
        };
        match self.update_balance(&debited) {
            Ok(()) => {},
            Err(e) => {
                return Err(e);
            },
        }
        let to_amount = match self.get_balance(to, token_id) {
            Ok(v) => v,
            Err(e) => {
                return Err(e);
            },
        };
        let credited = Balance {
            account: to.clone(),
            token_id,
            amount: if u128::MAX - to_amount >= amount {
                to_amount + amount
            } else {
                u128::MAX
            },
        };
        match self.update_balance(&credited) {
            Ok(()) => {},
            Err(e) => {
                return Err(e);
            },
        }
        Ok(())
    }

    /// Looks up the listener for the token and decides whether it fires at
    /// the reported price; no listener means no action. Reports only the
    /// decision — submitting the resulting call is the caller's part.
    pub fn process_price_update(&self, token_id: u128, current_price: u128) -> (r: Result<
        bool,
        CliError,
    >)
        ensures
            r matches Ok(fired) ==> {
                &&& !self.contents().contains_key(spec_listener_key(token_id)) ==> fired == false
                &&& self.contents().contains_key(spec_listener_key(token_id))
                    ==> (spec_decode_listener(
                    self.contents()[spec_listener_key(token_id)],
                ) matches Some(l) && fired == spec_fires(l, current_price))
            },
            r matches Err(e) ==> e == CliError::StoreFailed || (e == CliError::ParseError
                && self.contents().contains_key(spec_listener_key(token_id))
                && spec_decode_listener(self.contents()[spec_listener_key(token_id)]) is None),
    {
        match self.get_price_listener(token_id) {
            Ok(Some(listener)) => Ok(listener.fires_at(current_price)),
            Ok(None) => Ok(false),
            Err(e) => Err(e),
        }
    }

    /// Flushes pending writes and closes the mirror.
    pub fn close(self) -> (r: Result<(), CliError>)
        ensures
            r matches Err(e) ==> e == CliError::StoreFailed,
    {
        self.kv.flush()
    }
}

} // verus!
