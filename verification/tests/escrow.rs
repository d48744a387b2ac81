use quickex::engine::EscrowEngine;
use quickex::errors::Error;
use quickex::store::EscrowStore;
use quickex::types::{Commitment, EscrowEntry, EscrowStatus, Identity};

fn ident(bytes: &[u8]) -> Identity {
    Identity::new(bytes.to_vec())
}

fn salt_from(n: u64) -> Vec<u8> {
    let mut salt = vec![0u8; 32];
    let be = n.to_be_bytes();
    salt[..8].copy_from_slice(&be);
    salt
}

fn fresh_engine(admin: &[u8]) -> EscrowEngine {
    EscrowEngine::new(ident(admin), true, true)
}

#[test]
fn derive_is_deterministic() {
    let owner = ident(b"owner-account");
    let salt = salt_from(7);
    let c1 = quickex::codec::derive(&owner, 100, &salt);
    let c2 = quickex::codec::derive(&owner, 100, &salt);
    assert!(c1 == c2);
}

#[test]
fn derive_matches_known_sha256_vector() {
    // The 56-byte preimage "abcdbcdecdefdefgefghfghighijhijkijkljklmklmnlmnomnopnopq"
    // split as owner (8 bytes) || amount (16 bytes, big-endian) || salt (32 bytes).
    let owner = ident(b"abcdbcde");
    let amount: i128 = 0x63646566_64656667_65666768_66676869;
    let salt = b"ghijhijkijkljklmklmnlmnomnopnopq".to_vec();
    assert_eq!(salt.len(), 32);
    let expected: Vec<u8> = vec![
        0x24, 0x8d, 0x6a, 0x61, 0xd2, 0x06, 0x38, 0xb8, 0xe5, 0xc0, 0x26, 0x93, 0x0c, 0x3e, 0x60,
        0x39, 0xa3, 0x3c, 0xe4, 0x59, 0x64, 0xff, 0x21, 0x67, 0xf6, 0xec, 0xed, 0xd4, 0x19, 0xdb,
        0x06, 0xc1,
    ];
    let c = quickex::codec::derive(&owner, amount, &salt);
    assert_eq!(c.to_bytes(), expected);
}

#[test]
fn distinct_triples_give_distinct_commitments() {
    let mut seen = std::collections::HashSet::new();
    let owner_a = ident(b"first-owner");
    let owner_b = ident(b"second-owner");
    let mut count: usize = 0;
    for i in 0..5000u64 {
        let salt = salt_from(i);
        let amount = 1 + (i as i128 % 97);
        let c1 = quickex::codec::derive(&owner_a, amount, &salt);
        let c2 = quickex::codec::derive(&owner_b, amount, &salt);
        assert!(seen.insert(c1.to_bytes()));
        assert!(seen.insert(c2.to_bytes()));
        count += 2;
    }
    assert_eq!(count, 10000);
    assert_eq!(seen.len(), 10000);
}

#[test]
fn second_deposit_same_commitment_fails() {
    let mut engine = fresh_engine(b"admin");
    let token = ident(b"token");
    let owner = ident(b"owner");
    let salt = salt_from(1);
    let first = engine.deposit(token.clone(), 100, owner.clone(), &salt, 10);
    assert!(first.is_ok());
    let commitment = quickex::codec::derive(&owner, 100, &salt);
    let second = engine.deposit(ident(b"other-token"), 100, owner.clone(), &salt, 99);
    assert!(matches!(second, Err(Error::DuplicateCommitment)));
    // The original entry is unchanged.
    let entry = engine.get(&commitment).unwrap();
    assert!(entry.token == token);
    assert_eq!(entry.amount, 100);
    assert!(entry.owner == owner);
    assert_eq!(entry.status, EscrowStatus::Pending);
    assert_eq!(entry.created_at, 10);
}

#[test]
fn withdraw_before_deposit_fails() {
    let mut engine = fresh_engine(b"admin");
    let owner = ident(b"owner");
    let salt = salt_from(2);
    let r = engine.withdraw(owner.clone(), 50, &salt, ident(b"recipient"), 20);
    assert!(matches!(r, Err(Error::EntryNotFound)));
    // No state was created.
    let commitment = quickex::codec::derive(&owner, 50, &salt);
    assert!(engine.get(&commitment).is_none());
}

#[test]
fn withdraw_spends_exactly_once() {
    let mut engine = fresh_engine(b"admin");
    let owner = ident(b"owner");
    let salt = salt_from(3);
    engine
        .deposit(ident(b"token"), 500, owner.clone(), &salt, 30)
        .unwrap();
    let first = engine.withdraw(owner.clone(), 500, &salt, ident(b"recipient"), 31);
    assert!(first.is_ok());
    let commitment = quickex::codec::derive(&owner, 500, &salt);
    assert_eq!(engine.get(&commitment).unwrap().status, EscrowStatus::Spent);
    let second = engine.withdraw(owner.clone(), 500, &salt, ident(b"recipient"), 32);
    assert!(matches!(second, Err(Error::AlreadySpent)));
    assert_eq!(engine.get(&commitment).unwrap().status, EscrowStatus::Spent);
}

#[test]
fn withdraw_with_wrong_salt_finds_no_entry() {
    let mut engine = fresh_engine(b"admin");
    let owner = ident(b"owner");
    let salt = salt_from(4);
    engine
        .deposit(ident(b"token"), 70, owner.clone(), &salt, 40)
        .unwrap();
    let wrong_salt = salt_from(5);
    let r = engine.withdraw(owner.clone(), 70, &wrong_salt, ident(b"recipient"), 41);
    assert!(matches!(r, Err(Error::EntryNotFound)));
    // The deposited entry is still pending under its own commitment.
    let commitment = quickex::codec::derive(&owner, 70, &salt);
    assert_eq!(
        engine.get(&commitment).unwrap().status,
        EscrowStatus::Pending
    );
}

#[test]
fn withdraw_gate_blocks_and_reopens() {
    let admin = ident(b"admin");
    let mut engine = fresh_engine(b"admin");
    let owner = ident(b"owner");
    let salt = salt_from(6);
    engine
        .deposit(ident(b"token"), 90, owner.clone(), &salt, 50)
        .unwrap();
    let off = engine.set_withdraw_enabled(&admin, false, 51).unwrap();
    assert!(off.owner == admin);
    assert!(!off.enabled);
    assert_eq!(off.timestamp, 51);
    assert!(!engine.is_withdraw_enabled());
    let blocked = engine.withdraw(owner.clone(), 90, &salt, ident(b"recipient"), 52);
    assert!(matches!(blocked, Err(Error::GateDisabled)));
    engine.set_withdraw_enabled(&admin, true, 53).unwrap();
    assert!(engine.is_withdraw_enabled());
    let allowed = engine.withdraw(owner.clone(), 90, &salt, ident(b"recipient"), 54);
    assert!(allowed.is_ok());
}

#[test]
fn privacy_gate_blocks_deposits() {
    let admin = ident(b"admin");
    let mut engine = fresh_engine(b"admin");
    engine.set_privacy_enabled(&admin, false, 60).unwrap();
    assert!(!engine.is_deposit_enabled());
    let r = engine.deposit(ident(b"token"), 10, ident(b"owner"), &salt_from(7), 61);
    assert!(matches!(r, Err(Error::GateDisabled)));
}

#[test]
fn non_admin_cannot_toggle() {
    let mut engine = fresh_engine(b"admin");
    let intruder = ident(b"intruder");
    let r = engine.set_withdraw_enabled(&intruder, false, 70);
    assert!(matches!(r, Err(Error::Unauthorized)));
    assert!(engine.is_withdraw_enabled());
    let r2 = engine.set_privacy_enabled(&intruder, false, 71);
    assert!(matches!(r2, Err(Error::Unauthorized)));
    assert!(engine.is_deposit_enabled());
}

#[test]
fn non_positive_amounts_are_rejected() {
    let mut engine = fresh_engine(b"admin");
    let owner = ident(b"owner");
    let salt = salt_from(8);
    let d0 = engine.deposit(ident(b"token"), 0, owner.clone(), &salt, 80);
    assert!(matches!(d0, Err(Error::InvalidAmount)));
    let dneg = engine.deposit(ident(b"token"), -5, owner.clone(), &salt, 81);
    assert!(matches!(dneg, Err(Error::InvalidAmount)));
    let w0 = engine.withdraw(owner.clone(), 0, &salt, ident(b"recipient"), 82);
    assert!(matches!(w0, Err(Error::InvalidAmount)));
}

#[test]
fn end_to_end_deposit_withdraw_audit() {
    let token = ident(b"token-T");
    let owner = ident(b"owner-O");
    let recipient = ident(b"recipient-R");
    let salt = salt_from(9);
    let mut engine = fresh_engine(b"admin");

    let event = engine
        .deposit(token.clone(), 100, owner.clone(), &salt, 1000)
        .unwrap();
    let commitment = quickex::codec::derive(&owner, 100, &salt);
    assert!(event.commitment == commitment);
    assert!(event.token == token);
    assert_eq!(event.amount, 100);

    let entry = engine.get(&commitment).unwrap();
    assert!(entry.token == token);
    assert_eq!(entry.amount, 100);
    assert!(entry.owner == owner);
    assert_eq!(entry.status, EscrowStatus::Pending);
    assert_eq!(entry.created_at, 1000);

    let receipt = engine
        .withdraw(owner.clone(), 100, &salt, recipient.clone(), 2000)
        .unwrap();
    assert!(receipt.token == token);
    assert_eq!(receipt.amount, 100);
    assert!(receipt.event.to == recipient);
    assert!(receipt.event.commitment == commitment);
    assert_eq!(receipt.event.timestamp, 2000);

    // The entry stays readable for audit, now terminal.
    let audited = engine.get(&commitment).unwrap();
    assert_eq!(audited.status, EscrowStatus::Spent);
    assert_eq!(audited.created_at, 1000);
    assert!(audited.owner == owner);
}

#[test]
fn commitment_bytes_reconstruct() {
    let owner = ident(b"owner");
    let salt = salt_from(10);
    let c = quickex::codec::derive(&owner, 42, &salt);
    let bytes = c.to_bytes();
    assert_eq!(bytes.len(), 32);
    let back = Commitment::from_bytes(bytes).unwrap();
    assert!(back == c);
    assert!(Commitment::from_bytes(vec![0u8; 31]).is_none());
    assert!(Commitment::from_bytes(vec![0u8; 33]).is_none());
}

#[test]
fn store_create_get_update() {
    let c = Commitment::from_bytes(vec![7u8; 32]).unwrap();
    let mut store = EscrowStore::new();
    assert!(store.get(&c).is_none());
    let entry = EscrowEntry {
        token: ident(b"token"),
        amount: 5,
        owner: ident(b"owner"),
        status: EscrowStatus::Pending,
        created_at: 1,
    };
    assert!(store.create_if_absent(c.clone(), entry.clone()).is_ok());
    let duplicate = store.create_if_absent(c.clone(), entry.clone());
    assert!(matches!(duplicate, Err(Error::DuplicateCommitment)));
    let fetched = store.get(&c).unwrap();
    assert_eq!(fetched.amount, 5);
    assert_eq!(fetched.status, EscrowStatus::Pending);
    let mut spent = entry.clone();
    spent.status = EscrowStatus::Spent;
    store.update(&c, spent);
    assert_eq!(store.get(&c).unwrap().status, EscrowStatus::Spent);
}
