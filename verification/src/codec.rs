//! Commitment derivation.
//!
//! A commitment is the SHA-256 digest of a fixed preimage encoding:
//! the owner's identity bytes, then the amount as a 16-byte big-endian
//! integer, then the secret salt. The encoding order is frozen: changing
//! it would change the meaning of every previously issued commitment.

use vstd::prelude::*;
use sha2::Digest;

verus! {

use crate::{COMMITMENT_LEN, SALT_LEN};
use crate::types::{Commitment, Identity};

/// The SHA-256 digest of a byte sequence, named but left uninterpreted:
/// the engine relies only on the digest being a function of its input.
pub uninterp spec fn sha256_of(input: Seq<u8>) -> Seq<u8>;

/// The big-endian base-256 digits of `v`, padded or truncated on the left
/// to exactly `n` bytes.
pub open spec fn be_bytes(v: nat, n: nat) -> Seq<u8>
    decreases n,
{
    if n == 0 {
        Seq::empty()
    } else {
        be_bytes(v / 256, (n - 1) as nat).push((v % 256) as u8)
    }
}

/// The 16-byte big-endian encoding of a 128-bit amount.
pub open spec fn amount_be(v: u128) -> Seq<u8> {
    be_bytes(v as nat, 16)
}

/// The frozen preimage encoding: owner bytes, then the amount as a
/// fixed-width big-endian integer, then the salt bytes.
pub open spec fn preimage(owner: Seq<u8>, amount: i128, salt: Seq<u8>) -> Seq<u8> {
    owner + amount_be(amount as u128) + salt
}

/// The commitment bound to an (owner, amount, salt) triple.
pub open spec fn commitment_of(owner: Seq<u8>, amount: i128, salt: Seq<u8>) -> Seq<u8> {
    sha256_of(preimage(owner, amount, salt))
}

/// Relies on sha2's `Sha256`: the digest depends on the input bytes alone
/// and is exactly 32 bytes long.
#[verifier::external_body]
fn sha256(input: &Vec<u8>) -> (r: Vec<u8>)
    ensures
        r@ == sha256_of(input@),
        r@.len() == COMMITMENT_LEN,
{
    sha2::Sha256::digest(input.as_slice()).as_slice().to_vec()
}

/// Encodes `v` as exactly 16 big-endian bytes.
fn u128_to_be_bytes(v: u128) -> (r: Vec<u8>)
    ensures
        r@ == amount_be(v),
{
    let mut rev: Vec<u8> = Vec::new();
    let mut tmp: u128 = v;
    let mut k: usize = 0;
    while k < 16
        invariant
            k <= 16,
            rev@.len() == k,
            be_bytes(v as nat, 16) == be_bytes(tmp as nat, (16 - k) as nat) + rev@.reverse(),
        decreases 16 - k,
    {
        let b: u8 = (tmp % 256) as u8;
        proof {
            let n = (16 - k) as nat;
            assert(be_bytes(tmp as nat, n) == be_bytes((tmp as nat) / 256, (n - 1) as nat).push(
                ((tmp as nat) % 256) as u8,
            ));
            assert(rev@.push(b).reverse() =~= seq![b] + rev@.reverse());
            assert(be_bytes((tmp as nat) / 256, (n - 1) as nat).push(b) + rev@.reverse()
                =~= be_bytes((tmp as nat) / 256, (n - 1) as nat) + (seq![b] + rev@.reverse()));
        }
        rev.push(b);
        tmp = tmp / 256;
        k = k + 1;
    }
    let mut out: Vec<u8> = Vec::new();
    let mut j: usize = 0;
    while j < 16
        invariant
            j <= 16,
            rev@.len() == 16,
            out@.len() == j,
            be_bytes(v as nat, 16) == rev@.reverse(),
            forall|i: int| 0 <= i < j ==> out@[i] == rev@[15 - i],
        decreases 16 - j,
    {
        out.push(rev[15 - j]);
        j = j + 1;
    }
    proof {
        assert(out@ =~= rev@.reverse());
    }
    out
}

/// Derives the commitment for an (owner, amount, salt) triple.
///
/// Deterministic and free of side effects: equal triples always yield the
/// same commitment, so the result doubles as the entry's lookup key and as
/// the withdrawal-time proof of knowledge.
pub fn derive(owner: &Identity, amount: i128, salt: &Vec<u8>) -> (c: Commitment)
    requires
        amount > 0,
        salt@.len() == SALT_LEN,
    ensures
        c@ == commitment_of(owner@, amount, salt@),
        c.wf(),
{
    let mut data: Vec<u8> = Vec::new();
    data.extend_from_slice(owner.bytes.as_slice());
    let amt_bytes = u128_to_be_bytes(amount as u128);
    data.extend_from_slice(amt_bytes.as_slice());
    data.extend_from_slice(salt.as_slice());
    proof {
        assert(data@ =~= preimage(owner@, amount, salt@));
    }
    let digest = sha256(&data);
    Commitment::from_digest(digest)
}

} // verus!
