use pallet_poe::{Config, Error, Event, Pallet, Proofs};

const ALICE: u64 = 1;
const BOB: u64 = 2;
const CAROL: u64 = 3;

fn registry() -> Pallet {
    Pallet::new(Config { max_claim_length: 10 })
}

fn proof1() -> Vec<u8> {
    b"proof1".to_vec()
}

#[test]
fn walkthrough_create_transfer_revoke() {
    let mut p = registry();
    assert_eq!(p.create_claim(ALICE, proof1(), 1), Ok(()));
    assert_eq!(p.events().len(), 1);
    assert_eq!(p.events()[0], Event::ClaimCreated(ALICE, proof1()));

    assert_eq!(p.create_claim(BOB, proof1(), 2), Err(Error::ProofAlreadyExist));
    assert_eq!(p.events().len(), 1);

    assert_eq!(p.transfer_claim(ALICE, BOB, proof1(), 3), Ok(()));
    assert_eq!(p.events()[1], Event::ClaimedTransfered(ALICE, BOB, proof1()));

    assert_eq!(p.revoke_claim(ALICE, proof1()), Err(Error::NotClaimOwner));
    assert_eq!(p.revoke_claim(BOB, proof1()), Ok(()));
    assert_eq!(p.events().len(), 3);
    assert_eq!(p.events()[2], Event::ClaimRevoked(BOB, proof1()));
    assert_eq!(p.proofs().get(&proof1()), None);
}

#[test]
fn create_records_owner_and_position() {
    let mut p = registry();
    assert_eq!(p.create_claim(ALICE, proof1(), 42), Ok(()));
    assert_eq!(p.proofs().get(&proof1()), Some((ALICE, 42)));
    assert!(p.proofs().contains_key(&proof1()));
    assert_eq!(p.proofs().len(), 1);
}

#[test]
fn too_long_claim_refused_by_every_operation() {
    let mut p = registry();
    let long = vec![7u8; 11];
    assert_eq!(p.create_claim(ALICE, long.clone(), 1), Err(Error::ClaimTooLong));
    assert_eq!(p.revoke_claim(ALICE, long.clone()), Err(Error::ClaimTooLong));
    assert_eq!(p.transfer_claim(ALICE, BOB, long.clone(), 2), Err(Error::ClaimTooLong));
    assert_eq!(p.proofs().len(), 0);
    assert!(p.events().is_empty());
}

#[test]
fn claim_at_the_bound_accepted() {
    let mut p = registry();
    let exact = vec![9u8; 10];
    assert_eq!(p.create_claim(ALICE, exact.clone(), 1), Ok(()));
    assert_eq!(p.proofs().get(&exact), Some((ALICE, 1)));
}

#[test]
fn empty_claim_accepted() {
    let mut p = registry();
    assert_eq!(p.create_claim(ALICE, Vec::new(), 1), Ok(()));
    assert_eq!(p.revoke_claim(ALICE, Vec::new()), Ok(()));
    assert_eq!(p.proofs().len(), 0);
}

#[test]
fn second_create_keeps_first_owner() {
    let mut p = registry();
    assert_eq!(p.create_claim(ALICE, proof1(), 1), Ok(()));
    assert_eq!(p.create_claim(ALICE, proof1(), 2), Err(Error::ProofAlreadyExist));
    assert_eq!(p.create_claim(BOB, proof1(), 3), Err(Error::ProofAlreadyExist));
    assert_eq!(p.proofs().get(&proof1()), Some((ALICE, 1)));
    assert_eq!(p.events().len(), 1);
}

#[test]
fn absent_claim_refused() {
    let mut p = registry();
    assert_eq!(p.revoke_claim(ALICE, proof1()), Err(Error::ClaimNotExist));
    assert_eq!(p.transfer_claim(ALICE, BOB, proof1(), 1), Err(Error::ClaimNotExist));
    assert!(p.events().is_empty());
}

#[test]
fn non_owner_refused_and_entry_kept() {
    let mut p = registry();
    assert_eq!(p.create_claim(ALICE, proof1(), 1), Ok(()));
    assert_eq!(p.revoke_claim(BOB, proof1()), Err(Error::NotClaimOwner));
    assert_eq!(p.transfer_claim(BOB, CAROL, proof1(), 2), Err(Error::NotClaimOwner));
    assert_eq!(p.proofs().get(&proof1()), Some((ALICE, 1)));
    assert_eq!(p.events().len(), 1);
}

#[test]
fn create_then_revoke_restores_empty_registry() {
    let mut p = registry();
    assert_eq!(p.create_claim(ALICE, proof1(), 1), Ok(()));
    assert_eq!(p.revoke_claim(ALICE, proof1()), Ok(()));
    assert_eq!(p.proofs().len(), 0);
    assert!(!p.proofs().contains_key(&proof1()));
    assert_eq!(p.create_claim(BOB, proof1(), 5), Ok(()));
    assert_eq!(p.proofs().get(&proof1()), Some((BOB, 5)));
}

#[test]
fn transfer_moves_ownership() {
    let mut p = registry();
    assert_eq!(p.create_claim(ALICE, proof1(), 1), Ok(()));
    assert_eq!(p.transfer_claim(ALICE, BOB, proof1(), 4), Ok(()));
    assert_eq!(p.proofs().get(&proof1()), Some((BOB, 4)));
    assert_eq!(p.revoke_claim(ALICE, proof1()), Err(Error::NotClaimOwner));
    assert_eq!(p.revoke_claim(BOB, proof1()), Ok(()));
}

#[test]
fn self_transfer_advances_position() {
    let mut p = registry();
    assert_eq!(p.create_claim(ALICE, proof1(), 1), Ok(()));
    assert_eq!(p.transfer_claim(ALICE, ALICE, proof1(), 9), Ok(()));
    assert_eq!(p.proofs().get(&proof1()), Some((ALICE, 9)));
    assert_eq!(p.events()[1], Event::ClaimedTransfered(ALICE, ALICE, proof1()));
}

#[test]
fn claims_are_independent() {
    let mut p = registry();
    assert_eq!(p.create_claim(ALICE, b"a".to_vec(), 1), Ok(()));
    assert_eq!(p.create_claim(BOB, b"b".to_vec(), 2), Ok(()));
    assert_eq!(p.create_claim(CAROL, b"ab".to_vec(), 3), Ok(()));
    assert_eq!(p.revoke_claim(ALICE, b"a".to_vec()), Ok(()));
    assert_eq!(p.proofs().get(&b"b".to_vec()), Some((BOB, 2)));
    assert_eq!(p.proofs().get(&b"ab".to_vec()), Some((CAROL, 3)));
    assert_eq!(p.proofs().get(&b"a".to_vec()), None);
    assert_eq!(p.proofs().len(), 2);
}

#[test]
fn max_claim_length_reported() {
    assert_eq!(registry().max_claim_length(), 10);
}

#[test]
fn store_insert_replace_remove() {
    let mut s = Proofs::new();
    s.insert(b"x".to_vec(), (ALICE, 1));
    s.insert(b"y".to_vec(), (BOB, 2));
    s.insert(b"x".to_vec(), (CAROL, 3));
    assert_eq!(s.len(), 2);
    assert_eq!(s.get(&b"x".to_vec()), Some((CAROL, 3)));
    s.remove(&b"x".to_vec());
    assert_eq!(s.get(&b"x".to_vec()), None);
    assert_eq!(s.get(&b"y".to_vec()), Some((BOB, 2)));
    s.remove(&b"z".to_vec());
    assert_eq!(s.len(), 1);
}
