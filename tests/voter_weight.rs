use snapshot_voter::error::SnapshotVoterError;
use snapshot_voter::registrar::{create_registrar, update_registrar};
use snapshot_voter::state::{ProposalState, Registrar, TokenOwnerRecord, VoterWeightRecord};
use snapshot_voter::voter_weight::{
    create_max_voter_weight_record, create_voter_weight_record, update_voter_weight_record,
    verify_claim,
};

const PROGRAM: [u8; 32] = [0x11; 32];
const REALM: [u8; 32] = [0x22; 32];
const OTHER_REALM: [u8; 32] = [0x23; 32];
const MINT: [u8; 32] = [0x33; 32];
const AUTHORITY: [u8; 32] = [0x44; 32];
const PROPOSAL: [u8; 32] = [0x66; 32];
const VOTER_A: [u8; 32] = [0xA1; 32];
const VOTER_B: [u8; 32] = [0xB2; 32];
const VOTER_C: [u8; 32] = [0xC3; 32];
const VOTER_D: [u8; 32] = [0xD4; 32];

fn keccak(parts: &[&[u8]]) -> [u8; 32] {
    solana_program::keccak::hashv(parts).0
}

fn sorted_pair(a: [u8; 32], b: [u8; 32]) -> [u8; 32] {
    if a <= b {
        keccak(&[&a, &b])
    } else {
        keccak(&[&b, &a])
    }
}

fn row_leaf(index: u64, voter: [u8; 32], amount: u64) -> [u8; 32] {
    keccak(&[&index.to_le_bytes(), &voter, &amount.to_le_bytes()])
}

struct Snapshot {
    leaves: [[u8; 32]; 4],
    root: [u8; 32],
}

fn snapshot() -> Snapshot {
    let leaves = [
        row_leaf(0, VOTER_A, 10),
        row_leaf(1, VOTER_B, 20),
        row_leaf(2, VOTER_C, 5),
        row_leaf(3, VOTER_D, 7),
    ];
    let root = sorted_pair(sorted_pair(leaves[0], leaves[1]), sorted_pair(leaves[2], leaves[3]));
    Snapshot { leaves, root }
}

fn bundle(s: &Snapshot, index: u64) -> Vec<u8> {
    let l = &s.leaves;
    let left = sorted_pair(l[0], l[1]);
    let right = sorted_pair(l[2], l[3]);
    let siblings = match index {
        0 => [l[1], right],
        1 => [l[0], right],
        2 => [l[3], left],
        _ => [l[2], left],
    };
    let mut data = index.to_le_bytes().to_vec();
    for sibling in siblings.iter() {
        data.extend_from_slice(sibling);
    }
    data
}

fn published_registrar(root: [u8; 32]) -> Registrar {
    let mut r = create_registrar(PROGRAM, REALM, MINT, Some(AUTHORITY), AUTHORITY).unwrap();
    update_registrar(&mut r, root, None, PROPOSAL, ProposalState::Draft, Some(AUTHORITY), AUTHORITY)
        .unwrap();
    r
}

fn member(voter: [u8; 32]) -> TokenOwnerRecord {
    TokenOwnerRecord { realm: OTHER_REALM, governing_token_owner: voter }
}

#[test]
fn four_row_snapshot_grants_claimed_weight() {
    let s = snapshot();
    let registrar = published_registrar(s.root);
    let mut record = create_voter_weight_record(&registrar, VOTER_B);
    let result = update_voter_weight_record(
        &registrar,
        &mut record,
        &member(VOTER_B),
        &PROPOSAL,
        20,
        &bundle(&s, 1),
        4242,
    );
    assert_eq!(result, Ok(()));
    assert_eq!(record.voter_weight, 20);
    assert_eq!(record.voter_weight_expiry, Some(4242));
    assert_eq!(record.weight_action, None);
    assert_eq!(record.weight_action_target, Some(PROPOSAL));
    assert_eq!(record.realm, REALM);
    assert_eq!(record.governing_token_mint, MINT);
    assert_eq!(record.governing_token_owner, VOTER_B);
}

#[test]
fn four_row_snapshot_refuses_inflated_amount() {
    let s = snapshot();
    let registrar = published_registrar(s.root);
    let mut record = create_voter_weight_record(&registrar, VOTER_B);
    let before = record;
    let result = update_voter_weight_record(
        &registrar,
        &mut record,
        &member(VOTER_B),
        &PROPOSAL,
        21,
        &bundle(&s, 1),
        4242,
    );
    assert_eq!(result, Err(SnapshotVoterError::ProofVerificationFailed));
    assert_eq!(record, before);
}

#[test]
fn test_update_voter_weight_record() {
    let s = snapshot();
    let registrar = published_registrar(s.root);
    let mut record = create_voter_weight_record(&registrar, VOTER_A);
    let result = update_voter_weight_record(
        &registrar,
        &mut record,
        &member(VOTER_A),
        &PROPOSAL,
        10,
        &bundle(&s, 0),
        110,
    );
    assert_eq!(result, Ok(()));
    assert_eq!(record.voter_weight, 10);
    assert_eq!(record.voter_weight_expiry, Some(110));
    assert_eq!(record.weight_action, None);
    assert_eq!(record.weight_action_target, Some(PROPOSAL));
}

#[test]
fn every_row_of_the_snapshot_can_claim() {
    let s = snapshot();
    let registrar = published_registrar(s.root);
    let rows = [(0u64, VOTER_A, 10u64), (1, VOTER_B, 20), (2, VOTER_C, 5), (3, VOTER_D, 7)];
    for (index, voter, amount) in rows {
        let mut record = create_voter_weight_record(&registrar, voter);
        let result = update_voter_weight_record(
            &registrar,
            &mut record,
            &member(voter),
            &PROPOSAL,
            amount,
            &bundle(&s, index),
            1,
        );
        assert_eq!(result, Ok(()));
        assert_eq!(record.voter_weight, amount);
    }
}

#[test]
fn claim_with_flipped_bits_fails() {
    let s = snapshot();
    assert!(verify_claim(&s.root, &VOTER_B, 20, &bundle(&s, 1)));
    assert!(!verify_claim(&s.root, &VOTER_B, 20 ^ 1, &bundle(&s, 1)));
    let mut voter = VOTER_B;
    voter[17] ^= 0x04;
    assert!(!verify_claim(&s.root, &voter, 20, &bundle(&s, 1)));
    let mut data = bundle(&s, 1);
    data[0] ^= 0x02;
    assert!(!verify_claim(&s.root, &VOTER_B, 20, &data));
    for byte in [8usize, 39, 40, 71] {
        let mut data = bundle(&s, 1);
        data[byte] ^= 0x80;
        assert!(!verify_claim(&s.root, &VOTER_B, 20, &data));
    }
}

#[test]
fn resubmission_only_refreshes_expiry() {
    let s = snapshot();
    let registrar = published_registrar(s.root);
    let mut record = create_voter_weight_record(&registrar, VOTER_C);
    let data = bundle(&s, 2);
    update_voter_weight_record(&registrar, &mut record, &member(VOTER_C), &PROPOSAL, 5, &data, 7)
        .unwrap();
    let first = record;
    update_voter_weight_record(&registrar, &mut record, &member(VOTER_C), &PROPOSAL, 5, &data, 7)
        .unwrap();
    assert_eq!(record, first);
    update_voter_weight_record(&registrar, &mut record, &member(VOTER_C), &PROPOSAL, 5, &data, 8)
        .unwrap();
    assert_eq!(record, VoterWeightRecord { voter_weight_expiry: Some(8), ..first });
}

#[test]
fn update_before_any_root_fails() {
    let registrar = create_registrar(PROGRAM, REALM, MINT, Some(AUTHORITY), AUTHORITY).unwrap();
    let mut record = create_voter_weight_record(&registrar, VOTER_B);
    let s = snapshot();
    let result = update_voter_weight_record(
        &registrar,
        &mut record,
        &member(VOTER_B),
        &[0u8; 32],
        20,
        &bundle(&s, 1),
        1,
    );
    assert_eq!(result, Err(SnapshotVoterError::MerkleRootMissing));
}

#[test]
fn update_for_superseded_proposal_fails() {
    let s = snapshot();
    let registrar = published_registrar(s.root);
    let mut record = create_voter_weight_record(&registrar, VOTER_B);
    let result = update_voter_weight_record(
        &registrar,
        &mut record,
        &member(VOTER_B),
        &[0x67; 32],
        20,
        &bundle(&s, 1),
        1,
    );
    assert_eq!(result, Err(SnapshotVoterError::ProposalMismatch));
}

#[test]
fn registrar_update_on_open_vote_fails_and_keeps_snapshot() {
    let s = snapshot();
    let mut registrar = published_registrar(s.root);
    let result = update_registrar(
        &mut registrar,
        [5u8; 32],
        None,
        [0x67; 32],
        ProposalState::Voting,
        Some(AUTHORITY),
        AUTHORITY,
    );
    assert_eq!(result, Err(SnapshotVoterError::InvalidProposalState));
    assert_eq!(registrar.root, s.root);
    assert_eq!(registrar.proposal, PROPOSAL);
}

#[test]
fn malformed_bundle_fails_verification() {
    let s = snapshot();
    let registrar = published_registrar(s.root);
    let mut record = create_voter_weight_record(&registrar, VOTER_B);
    let mut data = bundle(&s, 1);
    data.pop();
    let result =
        update_voter_weight_record(&registrar, &mut record, &member(VOTER_B), &PROPOSAL, 20, &data, 1);
    assert_eq!(result, Err(SnapshotVoterError::ProofVerificationFailed));
    let result =
        update_voter_weight_record(&registrar, &mut record, &member(VOTER_B), &PROPOSAL, 20, &[1, 2], 1);
    assert_eq!(result, Err(SnapshotVoterError::ProofVerificationFailed));
}

#[test]
fn record_of_other_realm_fails() {
    let s = snapshot();
    let registrar = published_registrar(s.root);
    let mut record = create_voter_weight_record(&registrar, VOTER_B);
    record.realm = OTHER_REALM;
    let result = update_voter_weight_record(
        &registrar,
        &mut record,
        &member(VOTER_B),
        &PROPOSAL,
        20,
        &bundle(&s, 1),
        1,
    );
    assert_eq!(result, Err(SnapshotVoterError::InvalidVoterWeightRecordRealm));
}

#[test]
fn record_of_other_mint_fails() {
    let s = snapshot();
    let registrar = published_registrar(s.root);
    let mut record = create_voter_weight_record(&registrar, VOTER_B);
    record.governing_token_mint = [0x34; 32];
    let result = update_voter_weight_record(
        &registrar,
        &mut record,
        &member(VOTER_B),
        &PROPOSAL,
        20,
        &bundle(&s, 1),
        1,
    );
    assert_eq!(result, Err(SnapshotVoterError::InvalidVoterWeightRecordMint));
}

#[test]
fn test_update_voter_weight_record_with_token_owner_record_must_match_error() {
    let s = snapshot();
    let registrar = published_registrar(s.root);
    let mut record = create_voter_weight_record(&registrar, VOTER_B);
    let before = record;
    let result = update_voter_weight_record(
        &registrar,
        &mut record,
        &member(VOTER_A),
        &PROPOSAL,
        20,
        &bundle(&s, 1),
        1,
    );
    assert_eq!(result, Err(SnapshotVoterError::GoverningTokenOwnerMustMatch));
    assert_eq!(record, before);
}

#[test]
fn test_update_voter_weight_record_with_token_owner_record_from_own_realm_not_allowed_error() {
    let s = snapshot();
    let registrar = published_registrar(s.root);
    let mut record = create_voter_weight_record(&registrar, VOTER_B);
    let own_realm_member = TokenOwnerRecord { realm: REALM, governing_token_owner: VOTER_B };
    let result = update_voter_weight_record(
        &registrar,
        &mut record,
        &own_realm_member,
        &PROPOSAL,
        20,
        &bundle(&s, 1),
        1,
    );
    assert_eq!(result, Err(SnapshotVoterError::TokenOwnerRecordFromOwnRealmNotAllowed));
    assert_eq!(record.voter_weight, 0);
}

#[test]
fn new_weight_record_has_no_weight_and_no_expiry() {
    let registrar = published_registrar([1u8; 32]);
    let record = create_voter_weight_record(&registrar, VOTER_D);
    assert_eq!(
        record,
        VoterWeightRecord {
            realm: REALM,
            governing_token_mint: MINT,
            governing_token_owner: VOTER_D,
            voter_weight: 0,
            voter_weight_expiry: None,
            weight_action: None,
            weight_action_target: None,
        }
    );
}

#[test]
fn test_create_max_voter_weight_record() {
    let registrar = published_registrar([1u8; 32]);
    let record = create_max_voter_weight_record(&registrar);
    assert_eq!(record.realm, REALM);
    assert_eq!(record.governing_token_mint, MINT);
    assert_eq!(record.max_voter_weight, 0);
    assert_eq!(record.max_voter_weight_expiry, Some(0));
}
