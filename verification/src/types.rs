//! Core data types of the escrow engine: identities, commitments, and
//! escrow entries together with their mathematical views.

use vstd::prelude::*;

verus! {

use crate::COMMITMENT_LEN;

/// An opaque participant or token identity, carried as plain bytes.
///
/// The host environment supplies identities (account addresses, token
/// contract addresses); the engine only stores them, compares them for
/// equality, and feeds them to the commitment hash.
pub struct Identity {
    pub bytes: Vec<u8>,
}

impl View for Identity {
    type V = Seq<u8>;

    open spec fn view(&self) -> Seq<u8> {
        self.bytes@
    }
}

impl Identity {
    /// Wraps raw identity bytes.
    pub fn new(bytes: Vec<u8>) -> (r: Identity)
        ensures
            r@ == bytes@,
    {
        Identity { bytes }
    }
}

impl PartialEq for Identity {
    fn eq(&self, other: &Identity) -> (r: bool) {
        let r = self.bytes == other.bytes;
        proof {
            if r {
                assert(self.bytes@ =~= other.bytes@);
            } else if self.bytes@ == other.bytes@ {
                assert(self.bytes.len() == other.bytes.len());
                assert(forall|i: int|
                    0 <= i < self.bytes.len() ==> self.bytes[i] == other.bytes[i]);
                assert(false);
            }
        }
        r
    }
}

impl Eq for Identity {

}

impl vstd::std_specs::cmp::PartialEqSpecImpl for Identity {
    open spec fn obeys_eq_spec() -> bool {
        true
    }

    open spec fn eq_spec(&self, other: &Identity) -> bool {
        self.bytes@ == other.bytes@
    }
}

impl Clone for Identity {
    fn clone(&self) -> (r: Self)
        ensures
            r@ == self@,
    {
        let bytes = self.bytes.clone();
        proof {
            assert(bytes@ =~= self.bytes@);
        }
        Identity { bytes }
    }
}

/// A 32-byte commitment: the digest that binds an owner, an amount and a
/// secret salt, and serves as the key of the escrow entry it created.
///
/// The byte layout is deliberately opaque; a commitment is only derived by
/// the codec, compared for equality, or exported whole for the embedding.
pub struct Commitment {
    bytes: Vec<u8>,
}

impl View for Commitment {
    type V = Seq<u8>;

    closed spec fn view(&self) -> Seq<u8> {
        self.bytes@
    }
}

impl Commitment {
    /// A commitment always holds exactly [`COMMITMENT_LEN`] bytes.
    pub open spec fn wf(&self) -> bool {
        self@.len() == COMMITMENT_LEN
    }

    /// Wraps a digest already known to be commitment-sized.
    pub(crate) fn from_digest(bytes: Vec<u8>) -> (r: Commitment)
        requires
            bytes@.len() == COMMITMENT_LEN,
        ensures
            r@ == bytes@,
            r.wf(),
    {
        Commitment { bytes }
    }

    /// Re-wraps externally supplied bytes, accepting only the exact
    /// commitment length.
    pub fn from_bytes(bytes: Vec<u8>) -> (r: Option<Commitment>)
        ensures
            match r {
                Some(c) => bytes@.len() == COMMITMENT_LEN && c@ == bytes@ && c.wf(),
                None => bytes@.len() != COMMITMENT_LEN,
            },
    {
        if bytes.len() == COMMITMENT_LEN {
            Some(Commitment { bytes })
        } else {
            None
        }
    }

    /// Exports the commitment bytes, for storage keys or event payloads in
    /// the embedding.
    pub fn to_bytes(&self) -> (r: Vec<u8>)
        ensures
            r@ == self@,
    {
        let bytes = self.bytes.clone();
        proof {
            assert(bytes@ =~= self.bytes@);
        }
        bytes
    }
}

impl PartialEq for Commitment {
    fn eq(&self, other: &Commitment) -> (r: bool) {
        let r = self.bytes == other.bytes;
        proof {
            if r {
                assert(self.bytes@ =~= other.bytes@);
            } else if self.bytes@ == other.bytes@ {
                assert(self.bytes.len() == other.bytes.len());
                assert(forall|i: int|
                    0 <= i < self.bytes.len() ==> self.bytes[i] == other.bytes[i]);
                assert(false);
            }
        }
        r
    }
}

impl Eq for Commitment {

}

impl vstd::std_specs::cmp::PartialEqSpecImpl for Commitment {
    open spec fn obeys_eq_spec() -> bool {
        true
    }

    open spec fn eq_spec(&self, other: &Commitment) -> bool {
        self@ == other@
    }
}

impl Clone for Commitment {
    fn clone(&self) -> (r: Self)
        ensures
            r@ == self@,
            r.wf() == self.wf(),
    {
        let bytes = self.bytes.clone();
        proof {
            assert(bytes@ =~= self.bytes@);
        }
        Commitment { bytes }
    }
}

/// Escrow entry status.
///
/// Tracks the lifecycle of a deposited commitment:
/// - `Pending`: funds are escrowed, awaiting withdrawal.
/// - `Spent`: withdrawal completed; the entry is kept for audit.
/// - `Expired`: terminal state reserved for future expiration logic; no
///   current transition reaches it.
#[derive(Clone, Copy, PartialEq, Eq, Debug, Structural)]
pub enum EscrowStatus {
    Pending,
    Spent,
    Expired,
}

/// The mathematical value of an escrow entry.
pub struct EntryView {
    pub token: Seq<u8>,
    pub amount: i128,
    pub owner: Seq<u8>,
    pub status: EscrowStatus,
    pub created_at: u64,
}

/// One escrow entry: the durable record of a single deposit, stored under
/// its commitment.
pub struct EscrowEntry {
    /// Token identity of the escrowed funds.
    pub token: Identity,
    /// Amount in token base units; strictly positive for every stored entry.
    pub amount: i128,
    /// Owner who may withdraw by revealing the matching preimage.
    pub owner: Identity,
    /// Current lifecycle status.
    pub status: EscrowStatus,
    /// Host timestamp at deposit time; immutable afterwards.
    pub created_at: u64,
}

impl View for EscrowEntry {
    type V = EntryView;

    open spec fn view(&self) -> EntryView {
        EntryView {
            token: self.token@,
            amount: self.amount,
            owner: self.owner@,
            status: self.status,
            created_at: self.created_at,
        }
    }
}

impl Clone for EscrowEntry {
    fn clone(&self) -> (r: Self)
        ensures
            r@ == self@,
    {
        EscrowEntry {
            token: self.token.clone(),
            amount: self.amount,
            owner: self.owner.clone(),
            status: self.status,
            created_at: self.created_at,
        }
    }
}

} // verus!
