use aidledger::address::{find_batch_address, find_ngo_address, key_bytes, same_key, u64_le_bytes};
use aidledger::instructions::{
    register_ngo, submit_batch, AidledgerError, BatchSubmitted, Ledger, RegisterNgo, SubmitBatch,
};
use aidledger::state::{text_len, Batch, Ngo, LABEL_MAX_LEN, URI_MAX_LEN};
use anchor_lang::prelude::Pubkey;

const PROGRAM: [u8; 32] = [9u8; 32];
const ADMIN_A: [u8; 32] = [1u8; 32];
const ADMIN_B: [u8; 32] = [2u8; 32];

fn registered(admin: [u8; 32]) -> (Ledger, [u8; 32]) {
    let mut ledger = Ledger::new(PROGRAM);
    let org = register_ngo(&mut ledger, RegisterNgo { admin }, "ipfs://meta1".to_string(), 500)
        .expect("registration succeeds");
    (ledger, org)
}

fn submit(
    ledger: &mut Ledger,
    admin: [u8; 32],
    org: [u8; 32],
    batch_index: u64,
    merkle_root: [u8; 32],
    data_uri: &str,
) -> Result<BatchSubmitted, AidledgerError> {
    submit_batch(
        ledger,
        SubmitBatch { ngo: org, admin },
        batch_index,
        merkle_root,
        data_uri.to_string(),
        "east-africa".to_string(),
        "food-aid".to_string(),
        1000,
        2000,
    )
}

fn batch_at(ledger: &Ledger, org: [u8; 32], batch_index: u64) -> &Batch {
    let (address, _) = find_batch_address(&PROGRAM, &org, batch_index).expect("address");
    ledger.batch(&address).expect("batch stored")
}

#[test]
fn scenario_register_submit_resubmit() {
    let mut ledger = Ledger::new(PROGRAM);
    let org = register_ngo(&mut ledger, RegisterNgo { admin: ADMIN_A }, "ipfs://meta1".to_string(), 77)
        .expect("registration succeeds");
    let ngo: &Ngo = ledger.ngo(&org).expect("organization stored");
    assert_eq!(ngo.admin, ADMIN_A);
    assert_eq!(ngo.metadata_uri, "ipfs://meta1");
    assert!(ngo.is_active);
    assert_eq!(ngo.created_at, 77);

    let ev = submit_batch(
        &mut ledger,
        SubmitBatch { ngo: org, admin: ADMIN_A },
        0,
        [0u8; 32],
        "ipfs://data0".to_string(),
        "east-africa".to_string(),
        "food-aid".to_string(),
        1000,
        2000,
    )
    .expect("submission succeeds");
    assert_eq!(ev, BatchSubmitted { ngo: org, batch_index: 0, merkle_root: [0u8; 32] });
    let batch = batch_at(&ledger, org, 0);
    assert_eq!(batch.ngo, org);
    assert_eq!(batch.batch_index, 0);
    assert_eq!(batch.merkle_root, [0u8; 32]);
    assert_eq!(batch.data_uri, "ipfs://data0");
    assert_eq!(batch.region, "east-africa");
    assert_eq!(batch.program_tag, "food-aid");
    assert_eq!(batch.start_time, 1000);
    assert_eq!(batch.end_time, 2000);
    assert!(!batch.is_flagged);

    let again = submit_batch(
        &mut ledger,
        SubmitBatch { ngo: org, admin: ADMIN_A },
        0,
        [5u8; 32],
        "ipfs://data1".to_string(),
        "east-africa".to_string(),
        "food-aid".to_string(),
        1000,
        2000,
    );
    assert_eq!(again, Err(AidledgerError::DuplicateAllocation));
    let batch = batch_at(&ledger, org, 0);
    assert_eq!(batch.merkle_root, [0u8; 32]);
    assert_eq!(batch.data_uri, "ipfs://data0");
}

#[test]
fn register_twice_is_duplicate() {
    let (mut ledger, org) = registered(ADMIN_A);
    let second = register_ngo(&mut ledger, RegisterNgo { admin: ADMIN_A }, "ipfs://other".to_string(), 900);
    assert_eq!(second, Err(AidledgerError::DuplicateAllocation));
    let ngo = ledger.ngo(&org).expect("organization stored");
    assert_eq!(ngo.admin, ADMIN_A);
    assert_eq!(ngo.metadata_uri, "ipfs://meta1");
    assert_eq!(ngo.created_at, 500);
}

#[test]
fn two_admins_get_two_records() {
    let mut ledger = Ledger::new(PROGRAM);
    let a = register_ngo(&mut ledger, RegisterNgo { admin: ADMIN_A }, "a".to_string(), 1).unwrap();
    let b = register_ngo(&mut ledger, RegisterNgo { admin: ADMIN_B }, "b".to_string(), 2).unwrap();
    assert_ne!(a, b);
    assert_eq!(ledger.ngo(&a).unwrap().admin, ADMIN_A);
    assert_eq!(ledger.ngo(&b).unwrap().admin, ADMIN_B);
}

#[test]
fn submit_by_other_identity_is_unauthorized() {
    let (mut ledger, org) = registered(ADMIN_A);
    let r = submit(&mut ledger, ADMIN_B, org, 0, [3u8; 32], "ipfs://x");
    assert_eq!(r, Err(AidledgerError::Unauthorized));
    let (address, _) = find_batch_address(&PROGRAM, &org, 0).unwrap();
    assert!(ledger.batch(&address).is_none());
}

#[test]
fn submit_to_unknown_organization_fails() {
    let mut ledger = Ledger::new(PROGRAM);
    let r = submit(&mut ledger, ADMIN_A, [4u8; 32], 0, [3u8; 32], "ipfs://x");
    assert_eq!(r, Err(AidledgerError::NgoNotFound));
}

#[test]
fn distinct_indices_coexist() {
    let (mut ledger, org) = registered(ADMIN_A);
    submit(&mut ledger, ADMIN_A, org, 1, [1u8; 32], "ipfs://one").unwrap();
    submit(&mut ledger, ADMIN_A, org, 2, [2u8; 32], "ipfs://two").unwrap();
    let one = batch_at(&ledger, org, 1);
    assert_eq!(one.ngo, org);
    assert_eq!(one.merkle_root, [1u8; 32]);
    assert_eq!(one.data_uri, "ipfs://one");
    let two = batch_at(&ledger, org, 2);
    assert_eq!(two.ngo, org);
    assert_eq!(two.merkle_root, [2u8; 32]);
    assert_eq!(two.data_uri, "ipfs://two");
}

#[test]
fn event_matches_stored_record() {
    let (mut ledger, org) = registered(ADMIN_A);
    let root = [0xabu8; 32];
    let ev = submit(&mut ledger, ADMIN_A, org, u64::MAX, root, "ipfs://last").unwrap();
    let batch = batch_at(&ledger, org, u64::MAX);
    assert_eq!(ev.ngo, batch.ngo);
    assert_eq!(ev.batch_index, batch.batch_index);
    assert_eq!(ev.merkle_root, batch.merkle_root);
    assert_eq!(ev.batch_index, u64::MAX);
}

#[test]
fn metadata_uri_bound() {
    let mut ledger = Ledger::new(PROGRAM);
    let over = "m".repeat(257);
    let r = register_ngo(&mut ledger, RegisterNgo { admin: ADMIN_A }, over, 1);
    assert_eq!(r, Err(AidledgerError::OversizedField));
    let at = "m".repeat(256);
    let org = register_ngo(&mut ledger, RegisterNgo { admin: ADMIN_A }, at.clone(), 1).unwrap();
    assert_eq!(ledger.ngo(&org).unwrap().metadata_uri, at);
}

#[test]
fn metadata_uri_bound_counts_bytes() {
    let mut ledger = Ledger::new(PROGRAM);
    // 129 two-byte characters: 258 bytes.
    let over = "é".repeat(129);
    let r = register_ngo(&mut ledger, RegisterNgo { admin: ADMIN_A }, over, 1);
    assert_eq!(r, Err(AidledgerError::OversizedField));
}

#[test]
fn data_uri_bound() {
    let (mut ledger, org) = registered(ADMIN_A);
    let over = "d".repeat(257);
    let r = submit(&mut ledger, ADMIN_A, org, 0, [0u8; 32], &over);
    assert_eq!(r, Err(AidledgerError::OversizedField));
    let at = "d".repeat(256);
    submit(&mut ledger, ADMIN_A, org, 0, [0u8; 32], &at).unwrap();
    assert_eq!(batch_at(&ledger, org, 0).data_uri, at);
}

#[test]
fn label_bounds() {
    let (mut ledger, org) = registered(ADMIN_A);
    let long = "r".repeat(65);
    let r = submit_batch(
        &mut ledger,
        SubmitBatch { ngo: org, admin: ADMIN_A },
        0,
        [0u8; 32],
        "u".to_string(),
        long.clone(),
        "t".to_string(),
        0,
        0,
    );
    assert_eq!(r, Err(AidledgerError::OversizedField));
    let r = submit_batch(
        &mut ledger,
        SubmitBatch { ngo: org, admin: ADMIN_A },
        0,
        [0u8; 32],
        "u".to_string(),
        "r".to_string(),
        long,
        0,
        0,
    );
    assert_eq!(r, Err(AidledgerError::OversizedField));
    let at = "r".repeat(64);
    submit_batch(
        &mut ledger,
        SubmitBatch { ngo: org, admin: ADMIN_A },
        0,
        [0u8; 32],
        "u".to_string(),
        at.clone(),
        at,
        -5,
        -10,
    )
    .unwrap();
    let batch = batch_at(&ledger, org, 0);
    assert_eq!(batch.start_time, -5);
    assert_eq!(batch.end_time, -10);
}

#[test]
fn ngo_address_matches_program_derivation() {
    let (address, bump) = find_ngo_address(&PROGRAM, &ADMIN_A).unwrap();
    let id = Pubkey::new_from_array(PROGRAM);
    let (expected, expected_bump) = Pubkey::find_program_address(&[b"ngo", &ADMIN_A], &id);
    assert_eq!(address, expected.to_bytes());
    assert_eq!(bump, expected_bump);
    assert_ne!(address, ADMIN_A);
    assert_ne!(address, PROGRAM);
    let (ledger, org) = registered(ADMIN_A);
    assert_eq!(org, address);
    assert_eq!(ledger.ngo(&org).unwrap().bump, bump);
}

#[test]
fn batch_address_matches_program_derivation() {
    let org = [7u8; 32];
    let (address, bump) = find_batch_address(&PROGRAM, &org, 42).unwrap();
    let id = Pubkey::new_from_array(PROGRAM);
    let (expected, expected_bump) =
        Pubkey::find_program_address(&[b"batch", &org, &42u64.to_le_bytes()], &id);
    assert_eq!(address, expected.to_bytes());
    assert_eq!(bump, expected_bump);
    let (other, _) = find_batch_address(&PROGRAM, &org, 43).unwrap();
    assert_ne!(address, other);
}

#[test]
fn batch_record_keeps_its_bump() {
    let (mut ledger, org) = registered(ADMIN_A);
    submit(&mut ledger, ADMIN_A, org, 3, [0u8; 32], "u").unwrap();
    let (_, bump) = find_batch_address(&PROGRAM, &org, 3).unwrap();
    assert_eq!(batch_at(&ledger, org, 3).bump, bump);
}

#[test]
fn ledgers_of_different_programs_differ() {
    let mut other = Ledger::new([8u8; 32]);
    assert_eq!(other.program_id(), [8u8; 32]);
    let a = register_ngo(&mut other, RegisterNgo { admin: ADMIN_A }, "x".to_string(), 0).unwrap();
    let (ours, _) = registered(ADMIN_A);
    assert!(ours.ngo(&a).is_none());
}

#[test]
fn little_endian_bytes() {
    assert_eq!(u64_le_bytes(0x0102030405060708), vec![8, 7, 6, 5, 4, 3, 2, 1]);
    assert_eq!(u64_le_bytes(0), vec![0u8; 8]);
    assert_eq!(u64_le_bytes(u64::MAX), vec![255u8; 8]);
}

#[test]
fn keys_and_lengths() {
    let mut k = [0u8; 32];
    k[31] = 1;
    assert!(same_key(&k, &k));
    assert!(!same_key(&k, &[0u8; 32]));
    assert_eq!(key_bytes(&k), k.to_vec());
    assert_eq!(text_len(&"é".to_string()), 2);
    assert_eq!(text_len(&String::new()), 0);
    assert_eq!(URI_MAX_LEN, 256);
    assert_eq!(LABEL_MAX_LEN, 64);
}

#[test]
fn record_sizes() {
    assert_eq!(Ngo::MAX_SIZE, 310);
    assert_eq!(Batch::MAX_SIZE, 494);
}
