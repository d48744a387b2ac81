//! Event payloads returned by successful operations.
//!
//! The engine never talks to an event bus itself: each successful call
//! hands its event back as a plain value, and the embedding publishes it
//! only after the state change is durably committed.

use vstd::prelude::*;

verus! {

use crate::types::{Commitment, Identity};

/// Record of a privileged gate toggle: who flipped which flag, to what,
/// and when.
pub struct PrivacyToggledEvent {
    /// The administrator who performed the toggle.
    pub owner: Identity,
    /// The new value of the flag.
    pub enabled: bool,
    /// Host timestamp of the toggle.
    pub timestamp: u64,
}

/// The mathematical value of a [`PrivacyToggledEvent`].
pub struct PrivacyToggledEventView {
    pub owner: Seq<u8>,
    pub enabled: bool,
    pub timestamp: u64,
}

impl View for PrivacyToggledEvent {
    type V = PrivacyToggledEventView;

    open spec fn view(&self) -> PrivacyToggledEventView {
        PrivacyToggledEventView {
            owner: self.owner@,
            enabled: self.enabled,
            timestamp: self.timestamp,
        }
    }
}

/// Record of a completed withdrawal: the recipient, the spent commitment,
/// and the host timestamp.
pub struct WithdrawToggledEvent {
    /// Recipient of the released funds.
    pub to: Identity,
    /// The commitment whose entry was spent.
    pub commitment: Commitment,
    /// Host timestamp of the withdrawal.
    pub timestamp: u64,
}

/// The mathematical value of a [`WithdrawToggledEvent`].
pub struct WithdrawToggledEventView {
    pub to: Seq<u8>,
    pub commitment: Seq<u8>,
    pub timestamp: u64,
}

impl View for WithdrawToggledEvent {
    type V = WithdrawToggledEventView;

    open spec fn view(&self) -> WithdrawToggledEventView {
        WithdrawToggledEventView {
            to: self.to@,
            commitment: self.commitment@,
            timestamp: self.timestamp,
        }
    }
}

/// Record of a completed deposit: the new commitment, the escrowed token
/// and the escrowed amount.
pub struct DepositToggledEvent {
    /// The commitment that now keys the new entry.
    pub commitment: Commitment,
    /// Token identity of the escrowed funds.
    pub token: Identity,
    /// Escrowed amount in token base units.
    pub amount: i128,
}

/// The mathematical value of a [`DepositToggledEvent`].
pub struct DepositToggledEventView {
    pub commitment: Seq<u8>,
    pub token: Seq<u8>,
    pub amount: i128,
}

impl View for DepositToggledEvent {
    type V = DepositToggledEventView;

    open spec fn view(&self) -> DepositToggledEventView {
        DepositToggledEventView {
            commitment: self.commitment@,
            token: self.token@,
            amount: self.amount,
        }
    }
}

/// Everything a successful withdrawal hands back to the embedding: the
/// transfer to perform (token, amount, recipient) and the event to publish
/// once that transfer has committed.
pub struct WithdrawReceipt {
    /// Token identity of the funds to release.
    pub token: Identity,
    /// Amount to release, exactly the stored entry's amount.
    pub amount: i128,
    /// The withdrawal event; its `to` field is the transfer's recipient.
    pub event: WithdrawToggledEvent,
}

/// The mathematical value of a [`WithdrawReceipt`].
pub struct WithdrawReceiptView {
    pub token: Seq<u8>,
    pub amount: i128,
    pub event: WithdrawToggledEventView,
}

impl View for WithdrawReceipt {
    type V = WithdrawReceiptView;

    open spec fn view(&self) -> WithdrawReceiptView {
        WithdrawReceiptView {
            token: self.token@,
            amount: self.amount,
            event: self.event@,
        }
    }
}

} // verus!
