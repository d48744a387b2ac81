//! The escrow state machine: deposits, withdrawals and gate toggles over
//! the store, each proved to implement its spec-level transition exactly.
//!
//! Every call either commits its whole effect or rejects with an error and
//! leaves the state untouched; no partial transition is ever observable.

use vstd::prelude::*;

verus! {

use crate::SALT_LEN;
use crate::errors::Error;
use crate::events::{DepositToggledEvent, PrivacyToggledEvent, WithdrawReceipt, WithdrawToggledEvent};
use crate::model::{
    deposit_res_view, entries_positive, spec_deposit, spec_set_privacy_enabled,
    spec_set_withdraw_enabled, spec_withdraw, toggle_res_view, withdraw_res_view, EngineView,
};
use crate::store::EscrowStore;
use crate::types::{Commitment, EscrowEntry, EscrowStatus, Identity};

/// The escrow engine: the entry store, the designated administrator, and
/// the two owner-controlled gates.
pub struct EscrowEngine {
    store: EscrowStore,
    admin: Identity,
    privacy_enabled: bool,
    withdraw_enabled: bool,
}

impl View for EscrowEngine {
    type V = EngineView;

    closed spec fn view(&self) -> EngineView {
        EngineView {
            store: self.store@,
            admin: self.admin@,
            privacy_enabled: self.privacy_enabled,
            withdraw_enabled: self.withdraw_enabled,
        }
    }
}

impl EscrowEngine {
    /// The engine's internal invariant: the store keeps one slot per
    /// commitment, and every stored entry's amount is strictly positive.
    pub closed spec fn wf(&self) -> bool {
        self.store.wf() && entries_positive(self@)
    }

    /// Creates an engine with no entries, the given administrator, and the
    /// given initial gate values.
    pub fn new(admin: Identity, privacy_enabled: bool, withdraw_enabled: bool) -> (r: EscrowEngine)
        ensures
            r.wf(),
            r@ == (EngineView {
                store: Map::<Seq<u8>, crate::types::EntryView>::empty(),
                admin: admin@,
                privacy_enabled: privacy_enabled,
                withdraw_enabled: withdraw_enabled,
            }),
    {
        EscrowEngine {
            store: EscrowStore::new(),
            admin,
            privacy_enabled,
            withdraw_enabled,
        }
    }

    /// Whether deposits are currently permitted.
    pub fn is_deposit_enabled(&self) -> (r: bool)
        ensures
            r == self@.privacy_enabled,
    {
        self.privacy_enabled
    }

    /// Whether withdrawals are currently permitted.
    pub fn is_withdraw_enabled(&self) -> (r: bool)
        ensures
            r == self@.withdraw_enabled,
    {
        self.withdraw_enabled
    }

    /// Looks up the entry stored under a commitment, if any; spent entries
    /// stay readable for audit.
    pub fn get(&self, c: &Commitment) -> (r: Option<EscrowEntry>)
        requires
            self.wf(),
        ensures
            match r {
                Some(e) => self@.store.contains_key(c@) && e@ == self@.store[c@],
                None => !self@.store.contains_key(c@),
            },
    {
        self.store.get(c)
    }

    /// Deposits `amount` of `token` under the commitment derived from
    /// (owner, amount, salt); implements [`spec_deposit`] exactly.
    ///
    /// A rejected call (non-positive amount, disabled gate, or an already
    /// used commitment) changes nothing; in particular a second deposit on
    /// the same commitment fails with `DuplicateCommitment` and leaves the
    /// original entry untouched.
    pub fn deposit(
        &mut self,
        token: Identity,
        amount: i128,
        owner: Identity,
        salt: &Vec<u8>,
        now: u64,
    ) -> (r: Result<DepositToggledEvent, Error>)
        requires
            old(self).wf(),
            salt@.len() == SALT_LEN,
        ensures
            final(self).wf(),
            final(self)@ == spec_deposit(old(self)@, token@, amount, owner@, salt@, now).0,
            deposit_res_view(r) == spec_deposit(old(self)@, token@, amount, owner@, salt@, now).1,
    {
        if amount <= 0 {
            return Err(Error::InvalidAmount);
        }
        if !self.privacy_enabled {
            return Err(Error::GateDisabled);
        }
        let c = crate::codec::derive(&owner, amount, salt);
        let token_evt = token.clone();
        let c_evt = c.clone();
        let entry = EscrowEntry {
            token,
            amount,
            owner,
            status: EscrowStatus::Pending,
            created_at: now,
        };
        let ghost ev = entry@;
        match self.store.create_if_absent(c, entry) {
            Ok(()) => {
                proof {
                    assert forall|k: Seq<u8>| #[trigger] self@.store.contains_key(k)
                        implies self@.store[k].amount > 0 by {
                        if old(self)@.store.contains_key(k) {
                        } else {
                            assert(self@.store[k] == ev);
                        }
                    }
                }
                Ok(DepositToggledEvent { commitment: c_evt, token: token_evt, amount })
            },
            Err(err) => Err(err),
        }
    }

    /// Withdraws by revealing (owner, amount, salt); implements
    /// [`spec_withdraw`] exactly.
    ///
    /// The commitment is recomputed from the reveal and must key a
    /// `Pending` entry whose stored owner and amount match. On success the
    /// entry turns `Spent` — one way, exactly once — and the receipt names
    /// the transfer the host must perform before publishing the event. Any
    /// rejection changes nothing.
    pub fn withdraw(
        &mut self,
        owner: Identity,
        amount: i128,
        salt: &Vec<u8>,
        recipient: Identity,
        now: u64,
    ) -> (r: Result<WithdrawReceipt, Error>)
        requires
            old(self).wf(),
            salt@.len() == SALT_LEN,
        ensures
            final(self).wf(),
            final(self)@ == spec_withdraw(old(self)@, owner@, amount, salt@, recipient@, now).0,
            withdraw_res_view(r) == spec_withdraw(old(self)@, owner@, amount, salt@, recipient@,
                now).1,
    {
        if amount <= 0 {
            return Err(Error::InvalidAmount);
        }
        if !self.withdraw_enabled {
            return Err(Error::GateDisabled);
        }
        let c = crate::codec::derive(&owner, amount, salt);
        match self.store.get(&c) {
            None => Err(Error::EntryNotFound),
            Some(entry) => {
                match entry.status {
                    EscrowStatus::Pending => {
                        if !(entry.owner == owner) || entry.amount != amount {
                            Err(Error::RevealMismatch)
                        } else {
                            let mut updated = entry.clone();
                            updated.status = EscrowStatus::Spent;
                            self.store.update(&c, updated);
                            proof {
                                assert forall|k: Seq<u8>| #[trigger] self@.store.contains_key(k)
                                    implies self@.store[k].amount > 0 by {
                                    if k == c@ {
                                        assert(self@.store[k].amount == entry@.amount);
                                    } else {
                                        assert(old(self)@.store.contains_key(k));
                                    }
                                }
                            }
                            Ok(WithdrawReceipt {
                                token: entry.token,
                                amount: entry.amount,
                                event: WithdrawToggledEvent {
                                    to: recipient,
                                    commitment: c,
                                    timestamp: now,
                                },
                            })
                        }
                    },
                    _ => Err(Error::AlreadySpent),
                }
            },
        }
    }

    /// Sets the privacy gate, which permits or blocks deposits; only the
    /// administrator may call it. Implements [`spec_set_privacy_enabled`]
    /// exactly.
    pub fn set_privacy_enabled(&mut self, caller: &Identity, enabled: bool, now: u64) -> (r:
        Result<PrivacyToggledEvent, Error>)
        requires
            old(self).wf(),
        ensures
            final(self).wf(),
            final(self)@ == spec_set_privacy_enabled(old(self)@, caller@, enabled, now).0,
            toggle_res_view(r) == spec_set_privacy_enabled(old(self)@, caller@, enabled, now).1,
    {
        if !(*caller == self.admin) {
            return Err(Error::Unauthorized);
        }
        self.privacy_enabled = enabled;
        Ok(PrivacyToggledEvent { owner: caller.clone(), enabled, timestamp: now })
    }

    /// Sets the withdraw gate, which permits or blocks withdrawals; only
    /// the administrator may call it. Implements
    /// [`spec_set_withdraw_enabled`] exactly.
    pub fn set_withdraw_enabled(&mut self, caller: &Identity, enabled: bool, now: u64) -> (r:
        Result<PrivacyToggledEvent, Error>)
        requires
            old(self).wf(),
        ensures
            final(self).wf(),
            final(self)@ == spec_set_withdraw_enabled(old(self)@, caller@, enabled, now).0,
            toggle_res_view(r) == spec_set_withdraw_enabled(old(self)@, caller@, enabled, now).1,
    {
        if !(*caller == self.admin) {
            return Err(Error::Unauthorized);
        }
        self.withdraw_enabled = enabled;
        Ok(PrivacyToggledEvent { owner: caller.clone(), enabled, timestamp: now })
    }
}

} // verus!
