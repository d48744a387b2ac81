//! The mathematical model of the engine: its abstract state and the
//! spec-level transition functions that every executable operation is
//! proved to implement exactly.

use vstd::prelude::*;

verus! {

use crate::codec::commitment_of;
use crate::errors::Error;
use crate::events::{
    DepositToggledEvent, DepositToggledEventView, PrivacyToggledEvent, PrivacyToggledEventView,
    WithdrawReceipt, WithdrawReceiptView, WithdrawToggledEventView,
};
use crate::types::{EntryView, EscrowStatus};

/// The abstract state of the escrow engine.
pub struct EngineView {
    /// Commitment bytes to entry value, for every entry ever created.
    pub store: Map<Seq<u8>, EntryView>,
    /// The administrator allowed to toggle the gates.
    pub admin: Seq<u8>,
    /// Gate consulted by deposits.
    pub privacy_enabled: bool,
    /// Gate consulted by withdrawals.
    pub withdraw_enabled: bool,
}

/// Every stored entry carries a strictly positive amount.
pub open spec fn entries_positive(s: EngineView) -> bool {
    forall|k: Seq<u8>| #[trigger] s.store.contains_key(k) ==> s.store[k].amount > 0
}

/// The deposit transition: the state after the call and its outcome.
///
/// Rejections leave the state untouched. A successful deposit creates a
/// `Pending` entry under the derived commitment and reports the deposit
/// event to publish.
pub open spec fn spec_deposit(
    s: EngineView,
    token: Seq<u8>,
    amount: i128,
    owner: Seq<u8>,
    salt: Seq<u8>,
    now: u64,
) -> (EngineView, Result<DepositToggledEventView, Error>) {
    if amount <= 0 {
        (s, Err(Error::InvalidAmount))
    } else if !s.privacy_enabled {
        (s, Err(Error::GateDisabled))
    } else {
        let c = commitment_of(owner, amount, salt);
        if s.store.contains_key(c) {
            (s, Err(Error::DuplicateCommitment))
        } else {
            let entry = EntryView {
                token: token,
                amount: amount,
                owner: owner,
                status: EscrowStatus::Pending,
                created_at: now,
            };
            let s2 = EngineView { store: s.store.insert(c, entry), ..s };
            (s2, Ok(DepositToggledEventView { commitment: c, token: token, amount: amount }))
        }
    }
}

/// The withdraw transition: the state after the call and its outcome.
///
/// The caller reveals (owner, amount, salt); the commitment is recomputed
/// and must key a `Pending` entry whose owner and amount match the reveal.
/// On success the entry turns `Spent` (and stays readable), and the
/// receipt names the transfer to perform and the event to publish.
pub open spec fn spec_withdraw(
    s: EngineView,
    owner: Seq<u8>,
    amount: i128,
    salt: Seq<u8>,
    recipient: Seq<u8>,
    now: u64,
) -> (EngineView, Result<WithdrawReceiptView, Error>) {
    if amount <= 0 {
        (s, Err(Error::InvalidAmount))
    } else if !s.withdraw_enabled {
        (s, Err(Error::GateDisabled))
    } else {
        let c = commitment_of(owner, amount, salt);
        if !s.store.contains_key(c) {
            (s, Err(Error::EntryNotFound))
        } else {
            let e = s.store[c];
            if e.status != EscrowStatus::Pending {
                (s, Err(Error::AlreadySpent))
            } else if e.owner != owner || e.amount != amount {
                (s, Err(Error::RevealMismatch))
            } else {
                let spent = EntryView { status: EscrowStatus::Spent, ..e };
                let s2 = EngineView { store: s.store.insert(c, spent), ..s };
                let receipt = WithdrawReceiptView {
                    token: e.token,
                    amount: e.amount,
                    event: WithdrawToggledEventView { to: recipient, commitment: c, timestamp: now },
                };
                (s2, Ok(receipt))
            }
        }
    }
}

/// The privacy-gate toggle transition: only the administrator may flip
/// the flag that gates deposits.
pub open spec fn spec_set_privacy_enabled(
    s: EngineView,
    caller: Seq<u8>,
    enabled: bool,
    now: u64,
) -> (EngineView, Result<PrivacyToggledEventView, Error>) {
    if caller != s.admin {
        (s, Err(Error::Unauthorized))
    } else {
        let s2 = EngineView { privacy_enabled: enabled, ..s };
        (s2, Ok(PrivacyToggledEventView { owner: caller, enabled: enabled, timestamp: now }))
    }
}

/// The withdraw-gate toggle transition: only the administrator may flip
/// the flag that gates withdrawals.
pub open spec fn spec_set_withdraw_enabled(
    s: EngineView,
    caller: Seq<u8>,
    enabled: bool,
    now: u64,
) -> (EngineView, Result<PrivacyToggledEventView, Error>) {
    if caller != s.admin {
        (s, Err(Error::Unauthorized))
    } else {
        let s2 = EngineView { withdraw_enabled: enabled, ..s };
        (s2, Ok(PrivacyToggledEventView { owner: caller, enabled: enabled, timestamp: now }))
    }
}

/// The outcome of an executable deposit, as a mathematical value.
pub open spec fn deposit_res_view(
    r: Result<DepositToggledEvent, Error>,
) -> Result<DepositToggledEventView, Error> {
    match r {
        Ok(ev) => Ok(ev@),
        Err(e) => Err(e),
    }
}

/// The outcome of an executable withdraw, as a mathematical value.
pub open spec fn withdraw_res_view(
    r: Result<WithdrawReceipt, Error>,
) -> Result<WithdrawReceiptView, Error> {
    match r {
        Ok(receipt) => Ok(receipt@),
        Err(e) => Err(e),
    }
}

/// The outcome of an executable gate toggle, as a mathematical value.
pub open spec fn toggle_res_view(
    r: Result<PrivacyToggledEvent, Error>,
) -> Result<PrivacyToggledEventView, Error> {
    match r {
        Ok(ev) => Ok(ev@),
        Err(e) => Err(e),
    }
}

} // verus!
