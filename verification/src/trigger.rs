//! Price listeners and the trigger decision.
//!
//! A listener fires on a price update when it is enabled, the price has
//! reached its target, and the action's own bound allows it: a sale needs
//! the price at or above its minimum, a purchase at or below its maximum,
//! a transfer has no further bound. The decision is level-triggered: every
//! qualifying update fires again.

use vstd::prelude::*;
use vstd::bytes::*;

use crate::account::AccountId;
use crate::records::{
    spec_enc_bool, spec_dec_u128, spec_dec_bytes32, spec_dec_bool, write_u128, read_u128,
    read_account, read_bool, lemma_dec_u128_exact, lemma_dec_bytes32_exact, lemma_dec_bool_exact,
};

verus! {

/// The action a listener takes when it fires.
#[derive(Debug)]
pub enum PriceAction {
    /// Sell `amount`, but only at or above `min_price`.
    Sell { amount: u128, min_price: u128 },
    /// Buy `amount`, but only at or below `max_price`.
    Buy { amount: u128, max_price: u128 },
    /// Transfer `amount` to `to`, with no further price bound.
    Transfer { to: AccountId, amount: u128 },
}

/// The mathematical content of an action.
pub enum ActionView {
    /// Sell with a minimum price.
    Sell { amount: u128, min_price: u128 },
    /// Buy with a maximum price.
    Buy { amount: u128, max_price: u128 },
    /// Transfer to a thirty-two byte account.
    Transfer { to: Seq<u8>, amount: u128 },
}

impl View for PriceAction {
    type V = ActionView;

    open spec fn view(&self) -> ActionView {
        match self {
            PriceAction::Sell { amount, min_price } => ActionView::Sell {
                amount: *amount,
                min_price: *min_price,
            },
            PriceAction::Buy { amount, max_price } => ActionView::Buy {
                amount: *amount,
                max_price: *max_price,
            },
            PriceAction::Transfer { to, amount } => ActionView::Transfer {
                to: to@,
                amount: *amount,
            },
        }
    }
}

impl ActionView {
    /// A transfer target is a full identifier.
    pub open spec fn wf(&self) -> bool {
        match self {
            ActionView::Transfer { to, .. } => to.len() == 32,
            _ => true,
        }
    }
}

impl Clone for PriceAction {
    fn clone(&self) -> (r: Self)
        ensures
            r@ == self@,
    {
        match self {
            PriceAction::Sell { amount, min_price } => PriceAction::Sell {
                amount: *amount,
                min_price: *min_price,
            },
            PriceAction::Buy { amount, max_price } => PriceAction::Buy {
                amount: *amount,
                max_price: *max_price,
            },
            PriceAction::Transfer { to, amount } => PriceAction::Transfer {
                to: to.clone(),
                amount: *amount,
            },
        }
    }
}

/// A stored trigger condition for one token.
#[derive(Debug)]
pub struct PriceListener {
    /// The token whose price is watched.
    pub token_id: u128,
    /// The price that must be reached before any action fires.
    pub target_price: u128,
    /// What to do when the condition holds.
    pub action: PriceAction,
    /// A disabled listener never fires.
    pub enabled: bool,
}

/// The mathematical content of a listener.
pub struct ListenerView {
    /// The token whose price is watched.
    pub token_id: u128,
    /// The price that must be reached before any action fires.
    pub target_price: u128,
    /// What to do when the condition holds.
    pub action: ActionView,
    /// A disabled listener never fires.
    pub enabled: bool,
}

impl View for PriceListener {
    type V = ListenerView;

    open spec fn view(&self) -> ListenerView {
        ListenerView {
            token_id: self.token_id,
            target_price: self.target_price,
            action: self.action@,
            enabled: self.enabled,
        }
    }
}

impl ListenerView {
    /// The action is well formed.
    pub open spec fn wf(&self) -> bool {
        self.action.wf()
    }
}

impl PriceListener {
    /// The record is well formed.
    pub open spec fn wf(&self) -> bool {
        self@.wf()
    }
}

impl Clone for PriceListener {
    fn clone(&self) -> (r: Self)
        ensures
            r@ == self@,
    {
        PriceListener {
            token_id: self.token_id,
            target_price: self.target_price,
            action: self.action.clone(),
            enabled: self.enabled,
        }
    }
}

/// A price update for a token; lives only on the queue between a producer
/// and the worker.
#[derive(Debug, Clone, Copy, PartialEq, Eq, Structural)]
pub struct PriceUpdate {
    /// The token whose price changed.
    pub token_id: u128,
    /// The reported price.
    pub price: u128,
}

// ---------------------------------------------------------------------------
// The trigger decision
// ---------------------------------------------------------------------------

/// Whether a listener fires at a reported price: it must be enabled, the
/// price must have reached the target, and the action's own bound must
/// allow it.
pub open spec fn spec_fires(l: ListenerView, price: u128) -> bool {
    &&& l.enabled
    &&& price >= l.target_price
    &&& match l.action {
        ActionView::Sell { min_price, .. } => price >= min_price,
        ActionView::Buy { max_price, .. } => price <= max_price,
        ActionView::Transfer { .. } => true,
    }
}

impl PriceListener {
    /// Decides whether this listener fires at the reported price.
    pub fn fires_at(&self, price: u128) -> (r: bool)
        ensures
            r == spec_fires(self@, price),
    {
        if !self.enabled {
            return false;
        }
        if price < self.target_price {
            return false;
        }
        match &self.action {
            PriceAction::Sell { min_price, .. } => price >= *min_price,
            PriceAction::Buy { max_price, .. } => price <= *max_price,
            PriceAction::Transfer { .. } => true,
        }
    }
}

/// A disabled listener never fires, whatever the price and the action.
pub proof fn lemma_disabled_never_fires(l: ListenerView, price: u128)
    requires
        !l.enabled,
    ensures
        !spec_fires(l, price),
{
}

/// A price below the target never fires, whatever the action.
pub proof fn lemma_below_target_never_fires(l: ListenerView, price: u128)
    requires
        price < l.target_price,
    ensures
        !spec_fires(l, price),
{
}

// ---------------------------------------------------------------------------
// Binary encoding
// ---------------------------------------------------------------------------

/// The encoding of an action: a tag byte, then its fields in declaration
/// order.
pub open spec fn spec_encode_action(a: ActionView) -> Seq<u8> {
    match a {
        ActionView::Sell { amount, min_price } => seq![0u8] + spec_u128_to_le_bytes(amount)
            + spec_u128_to_le_bytes(min_price),
        ActionView::Buy { amount, max_price } => seq![1u8] + spec_u128_to_le_bytes(amount)
            + spec_u128_to_le_bytes(max_price),
        ActionView::Transfer { to, amount } => seq![2u8] + to + spec_u128_to_le_bytes(amount),
    }
}

/// The action read off the head of `s`.
pub open spec fn spec_dec_action(s: Seq<u8>) -> Option<(ActionView, Seq<u8>)> {
    if s.len() < 1 {
        None
    } else if s[0] == 0u8 {
        match spec_dec_u128(s.skip(1)) {
            None => None,
            Some((amount, s1)) => match spec_dec_u128(s1) {
                None => None,
                Some((min_price, s2)) => Some((ActionView::Sell { amount, min_price }, s2)),
            },
        }
    } else if s[0] == 1u8 {
        match spec_dec_u128(s.skip(1)) {
            None => None,
            Some((amount, s1)) => match spec_dec_u128(s1) {
                None => None,
                Some((max_price, s2)) => Some((ActionView::Buy { amount, max_price }, s2)),
            },
        }
    } else if s[0] == 2u8 {
        match spec_dec_bytes32(s.skip(1)) {
            None => None,
            Some((to, s1)) => match spec_dec_u128(s1) {
                None => None,
                Some((amount, s2)) => Some((ActionView::Transfer { to, amount }, s2)),
            },
        }
    } else {
        None
    }
}

/// Appends the encoding of an action.
fn write_action(out: &mut Vec<u8>, a: &PriceAction)
    requires
        a@.wf(),
    ensures
        final(out)@ == old(out)@ + spec_encode_action(a@),
{
    match a {
        PriceAction::Sell { amount, min_price } => {
            out.push(0u8);
            write_u128(out, *amount);
            write_u128(out, *min_price);
            proof {
                assert(final(out)@ =~= old(out)@ + spec_encode_action(a@));
            }
        },
        PriceAction::Buy { amount, max_price } => {
            out.push(1u8);
            write_u128(out, *amount);
            write_u128(out, *max_price);
            proof {
                assert(final(out)@ =~= old(out)@ + spec_encode_action(a@));
            }
        },
        PriceAction::Transfer { to, amount } => {
            out.push(2u8);
            out.extend_from_slice(to.as_bytes());
            write_u128(out, *amount);
            proof {
                assert(final(out)@ =~= old(out)@ + spec_encode_action(a@));
            }
        },
    }
}

/// Reads an action at `off`.
fn read_action(data: &[u8], off: usize) -> (r: Option<(PriceAction, usize)>)
    requires
        off <= data@.len(),
    ensures
        r matches Some((a, next)) ==> off <= next <= data@.len() && a@.wf() && spec_dec_action(
            data@.skip(off as int),
        ) == Some((a@, data@.skip(next as int))),
        r is None <==> spec_dec_action(data@.skip(off as int)) is None,
{
    if data.len() - off < 1 {
        return None;
    }
    let tag = *vstd::slice::slice_index_get(data, off);
    proof {
        assert(data@.skip(off as int)[0] == data@[off as int]);
        assert(data@.skip(off as int).skip(1) =~= data@.skip(off + 1));
    }
    if tag == 0u8 {
        let (amount, o1) = match read_u128(data, off + 1) {
            Some(x) => x,
            None => {
                return None;
            },
        };
        let (min_price, o2) = match read_u128(data, o1) {
            Some(x) => x,
            None => {
                return None;
            },
        };
        Some((PriceAction::Sell { amount, min_price }, o2))
    } else if tag == 1u8 {
        let (amount, o1) = match read_u128(data, off + 1) {
            Some(x) => x,
            None => {
                return None;
            },
        };
        let (max_price, o2) = match read_u128(data, o1) {
            Some(x) => x,
            None => {
                return None;
            },
        };
        Some((PriceAction::Buy { amount, max_price }, o2))
    } else if tag == 2u8 {
        let (to, o1) = match read_account(data, off + 1) {
            Some(x) => x,
            None => {
                return None;
            },
        };
        let (amount, o2) = match read_u128(data, o1) {
            Some(x) => x,
            None => {
                return None;
            },
        };
        Some((PriceAction::Transfer { to, amount }, o2))
    } else {
        None
    }
}

/// The encoding of a listener, field by field in declaration order.
pub open spec fn spec_encode_listener(l: ListenerView) -> Seq<u8> {
    spec_u128_to_le_bytes(l.token_id) + spec_u128_to_le_bytes(l.target_price) + spec_encode_action(
        l.action,
    ) + spec_enc_bool(l.enabled)
}

/// The listener read off the head of `s`; trailing bytes are ignored.
#[verifier::opaque]
pub open spec fn spec_decode_listener(s: Seq<u8>) -> Option<ListenerView> {
    match spec_dec_u128(s) {
        None => None,
        Some((token_id, s1)) => match spec_dec_u128(s1) {
            None => None,
            Some((target_price, s2)) => match spec_dec_action(s2) {
                None => None,
                Some((action, s3)) => match spec_dec_bool(s3) {
                    None => None,
                    Some((enabled, _)) => Some(
                        ListenerView { token_id, target_price, action, enabled },
                    ),
                },
            },
        },
    }
}

/// Encodes a listener record.
pub fn encode_listener(l: &PriceListener) -> (r: Vec<u8>)
    requires
        l.wf(),
    ensures
        r@ == spec_encode_listener(l@),
{
    let mut out: Vec<u8> = Vec::new();
    write_u128(&mut out, l.token_id);
    write_u128(&mut out, l.target_price);
    write_action(&mut out, &l.action);
    out.push(if l.enabled {
        1u8
    } else {
        0u8
    });
    proof {
        assert(out@ =~= spec_encode_listener(l@));
    }
    out
}

/// Decodes a listener record from the head of `data`.
pub fn decode_listener(data: &[u8]) -> (r: Option<PriceListener>)
    ensures
        r matches Some(l) ==> l.wf() && spec_decode_listener(data@) == Some(l@),
        r is None <==> spec_decode_listener(data@) is None,
{
    proof {
        reveal(spec_decode_listener);
        assert(data@.skip(0) =~= data@);
    }
    let (token_id, o1) = match read_u128(data, 0) {
        Some(x) => x,
        None => {
            return None;
        },
    };
    let (target_price, o2) = match read_u128(data, o1) {
        Some(x) => x,
        None => {
            return None;
        },
    };
    let (action, o3) = match read_action(data, o2) {
        Some(x) => x,
        None => {
            return None;
        },
    };
    let (enabled, _o4) = match read_bool(data, o3) {
        Some(x) => x,
        None => {
            return None;
        },
    };
    Some(PriceListener { token_id, target_price, action, enabled })
}

/// Reading an action off its encoding leaves the rest.
pub proof fn lemma_dec_action_exact(a: ActionView, rest: Seq<u8>)
    requires
        a.wf(),
    ensures
        spec_dec_action(spec_encode_action(a) + rest) == Some((a, rest)),
{
    let s = spec_encode_action(a) + rest;
    match a {
        ActionView::Sell { amount, min_price } => {
            assert(s.skip(1) =~= spec_u128_to_le_bytes(amount) + (spec_u128_to_le_bytes(min_price)
                + rest));
            lemma_dec_u128_exact(amount, spec_u128_to_le_bytes(min_price) + rest);
            lemma_dec_u128_exact(min_price, rest);
        },
        ActionView::Buy { amount, max_price } => {
            assert(s.skip(1) =~= spec_u128_to_le_bytes(amount) + (spec_u128_to_le_bytes(max_price)
                + rest));
            lemma_dec_u128_exact(amount, spec_u128_to_le_bytes(max_price) + rest);
            lemma_dec_u128_exact(max_price, rest);
        },
        ActionView::Transfer { to, amount } => {
            assert(s.skip(1) =~= to + (spec_u128_to_le_bytes(amount) + rest));
            lemma_dec_bytes32_exact(to, spec_u128_to_le_bytes(amount) + rest);
            lemma_dec_u128_exact(amount, rest);
        },
    }
}

/// Decoding an encoded listener yields the listener again.
pub proof fn lemma_listener_round_trip(l: ListenerView)
    requires
        l.wf(),
    ensures
        spec_decode_listener(spec_encode_listener(l)) == Some(l),
{
    reveal(spec_decode_listener);
    let e_target = spec_u128_to_le_bytes(l.target_price);
    let e_action = spec_encode_action(l.action);
    let e_enabled = spec_enc_bool(l.enabled);
    assert(spec_encode_listener(l) =~= spec_u128_to_le_bytes(l.token_id) + (e_target + (e_action
        + e_enabled)));
    lemma_dec_u128_exact(l.token_id, e_target + (e_action + e_enabled));
    lemma_dec_u128_exact(l.target_price, e_action + e_enabled);
    lemma_dec_action_exact(l.action, e_enabled);
    assert(e_enabled =~= e_enabled + Seq::<u8>::empty());
    lemma_dec_bool_exact(l.enabled, Seq::<u8>::empty());
}

} // verus!
