//! The engine's laws: properties that relate several transitions, stated
//! over the abstract model and proved once and for all.

use vstd::prelude::*;

verus! {

use crate::codec::commitment_of;
use crate::errors::Error;
use crate::events::{DepositToggledEventView, WithdrawReceiptView};
use crate::model::{spec_deposit, spec_set_withdraw_enabled, spec_withdraw, EngineView};
use crate::types::EscrowStatus;

/// Law: commitment derivation is deterministic — equal (owner, amount,
/// salt) triples always derive equal commitments, so two calls of the
/// codec on the same reveal can never disagree.
pub proof fn lemma_derive_deterministic(
    owner1: Seq<u8>,
    amount1: i128,
    salt1: Seq<u8>,
    owner2: Seq<u8>,
    amount2: i128,
    salt2: Seq<u8>,
)
    requires
        owner1 == owner2,
        amount1 == amount2,
        salt1 == salt2,
    ensures
        commitment_of(owner1, amount1, salt1) == commitment_of(owner2, amount2, salt2),
{
}

/// Law: depositing twice on the same commitment fails the second time
/// with `DuplicateCommitment`, whatever token or timestamp the second
/// call carries, and the state — in particular the original entry — is
/// unchanged.
pub proof fn lemma_second_deposit_rejected(
    s0: EngineView,
    token1: Seq<u8>,
    token2: Seq<u8>,
    amount: i128,
    owner: Seq<u8>,
    salt: Seq<u8>,
    now1: u64,
    now2: u64,
)
    requires
        spec_deposit(s0, token1, amount, owner, salt, now1).1 is Ok,
    ensures
        ({
            let s1 = spec_deposit(s0, token1, amount, owner, salt, now1).0;
            &&& spec_deposit(s1, token2, amount, owner, salt, now2).0 == s1
            &&& spec_deposit(s1, token2, amount, owner, salt, now2).1 == Err::<
                DepositToggledEventView,
                Error,
            >(Error::DuplicateCommitment)
        }),
{
}

/// Law: a withdrawal whose recomputed commitment keys no stored entry is
/// rejected with `EntryNotFound`, and no state is created. A reveal with
/// a wrong salt reaches exactly this outcome whenever its recomputed
/// commitment differs from every stored key.
pub proof fn lemma_withdraw_unknown_commitment(
    s: EngineView,
    owner: Seq<u8>,
    amount: i128,
    salt: Seq<u8>,
    recipient: Seq<u8>,
    now: u64,
)
    requires
        amount > 0,
        s.withdraw_enabled,
        !s.store.contains_key(commitment_of(owner, amount, salt)),
    ensures
        spec_withdraw(s, owner, amount, salt, recipient, now).0 == s,
        spec_withdraw(s, owner, amount, salt, recipient, now).1 == Err::<WithdrawReceiptView,
            Error>(Error::EntryNotFound),
{
}

/// Law: after a successful deposit, a withdrawal revealing the same
/// (owner, amount, salt) succeeds and turns the entry `Spent` — and only
/// then; repeating the withdrawal fails with `AlreadySpent` and changes
/// nothing, so a deposit can be spent exactly once.
pub proof fn lemma_withdraw_spends_exactly_once(
    s0: EngineView,
    token: Seq<u8>,
    amount: i128,
    owner: Seq<u8>,
    salt: Seq<u8>,
    recipient1: Seq<u8>,
    recipient2: Seq<u8>,
    now0: u64,
    now1: u64,
    now2: u64,
)
    requires
        spec_deposit(s0, token, amount, owner, salt, now0).1 is Ok,
        s0.withdraw_enabled,
    ensures
        ({
            let s1 = spec_deposit(s0, token, amount, owner, salt, now0).0;
            let c = commitment_of(owner, amount, salt);
            let w1 = spec_withdraw(s1, owner, amount, salt, recipient1, now1);
            &&& w1.1 is Ok
            &&& w1.0.store.contains_key(c)
            &&& w1.0.store[c].status == EscrowStatus::Spent
            &&& spec_withdraw(w1.0, owner, amount, salt, recipient2, now2).0 == w1.0
            &&& spec_withdraw(w1.0, owner, amount, salt, recipient2, now2).1 == Err::<
                WithdrawReceiptView,
                Error,
            >(Error::AlreadySpent)
        }),
{
}

/// Law: a deposit never deletes an existing entry and never touches an
/// entry other than the one its own commitment keys.
pub proof fn lemma_deposit_preserves_entries(
    s: EngineView,
    token: Seq<u8>,
    amount: i128,
    owner: Seq<u8>,
    salt: Seq<u8>,
    now: u64,
    k: Seq<u8>,
)
    requires
        s.store.contains_key(k),
    ensures
        ({
            let s2 = spec_deposit(s, token, amount, owner, salt, now).0;
            &&& s2.store.contains_key(k)
            &&& s2.store[k] == s.store[k]
        }),
{
}

/// Law: a withdrawal never deletes an entry; entries under other
/// commitments keep their exact value, and even the spent entry keeps its
/// token, amount, owner and creation time — only its status may move.
pub proof fn lemma_withdraw_preserves_entries(
    s: EngineView,
    owner: Seq<u8>,
    amount: i128,
    salt: Seq<u8>,
    recipient: Seq<u8>,
    now: u64,
    k: Seq<u8>,
)
    requires
        s.store.contains_key(k),
    ensures
        ({
            let s2 = spec_withdraw(s, owner, amount, salt, recipient, now).0;
            &&& s2.store.contains_key(k)
            &&& k != commitment_of(owner, amount, salt) ==> s2.store[k] == s.store[k]
            &&& s2.store[k].token == s.store[k].token
            &&& s2.store[k].amount == s.store[k].amount
            &&& s2.store[k].owner == s.store[k].owner
            &&& s2.store[k].created_at == s.store[k].created_at
        }),
{
}

/// Law: while the withdraw gate is off, every reveal is turned away with
/// `GateDisabled` and the state keeps its value; once the administrator
/// re-enables withdrawals, a reveal matching a pending entry is accepted.
pub proof fn lemma_gate_closes_and_reopens(
    s0: EngineView,
    caller: Seq<u8>,
    owner: Seq<u8>,
    amount: i128,
    salt: Seq<u8>,
    recipient: Seq<u8>,
    t_off: u64,
    t_on: u64,
    now1: u64,
    now2: u64,
)
    requires
        caller == s0.admin,
        amount > 0,
        ({
            let c = commitment_of(owner, amount, salt);
            &&& s0.store.contains_key(c)
            &&& s0.store[c].status == EscrowStatus::Pending
            &&& s0.store[c].owner == owner
            &&& s0.store[c].amount == amount
        }),
    ensures
        ({
            let off = spec_set_withdraw_enabled(s0, caller, false, t_off);
            let s1 = off.0;
            let blocked = spec_withdraw(s1, owner, amount, salt, recipient, now1);
            let s2 = spec_set_withdraw_enabled(s1, caller, true, t_on).0;
            &&& off.1 is Ok
            &&& blocked.0 == s1
            &&& blocked.1 == Err::<WithdrawReceiptView, Error>(Error::GateDisabled)
            &&& spec_withdraw(s2, owner, amount, salt, recipient, now2).1 is Ok
        }),
{
}

} // verus!
