//! Weight records: their creation and the proof-backed weight update.
use vstd::prelude::*;

use crate::bytes::{bytes_eq, bytes_is_zero, is_zero, Pubkey};
use crate::claim::{claim_verifies, leaf_hash, ProofBundle};
use crate::error::SnapshotVoterError;
use crate::merkle::verify_proof;
use crate::state::{MaxVoterWeightRecord, Registrar, TokenOwnerRecord, VoterWeightRecord};

verus! {

/// A new weight record of `governing_token_owner` for the registrar's realm and mint:
/// weight zero, no expiry, no scope.
pub open spec fn new_voter_weight_record(
    registrar: Registrar,
    governing_token_owner: Pubkey,
) -> VoterWeightRecord {
    VoterWeightRecord {
        realm: registrar.realm,
        governing_token_mint: registrar.governing_token_mint,
        governing_token_owner,
        voter_weight: 0,
        voter_weight_expiry: None,
        weight_action: None,
        weight_action_target: None,
    }
}

/// A new population ceiling for the registrar's realm and mint: zero, and already
/// expired (valid at clock value 0 only) until it is configured.
pub open spec fn new_max_voter_weight_record(registrar: Registrar) -> MaxVoterWeightRecord {
    MaxVoterWeightRecord {
        realm: registrar.realm,
        governing_token_mint: registrar.governing_token_mint,
        max_voter_weight: 0,
        max_voter_weight_expiry: Some(0),
    }
}

/// The first check of a weight update that fails, in the order they are made, if any.
///
/// `proposal` is the decision instance the update is made for; `data` is the proof
/// bundle backing the claim that the record's voter holds `amount`.
pub open spec fn weight_update_error(
    registrar: Registrar,
    record: VoterWeightRecord,
    token_owner_record: TokenOwnerRecord,
    proposal: Pubkey,
    amount: u64,
    data: Seq<u8>,
) -> Option<SnapshotVoterError> {
    if record.realm != registrar.realm {
        Some(SnapshotVoterError::InvalidVoterWeightRecordRealm)
    } else if record.governing_token_mint != registrar.governing_token_mint {
        Some(SnapshotVoterError::InvalidVoterWeightRecordMint)
    } else if is_zero(registrar.root) {
        Some(SnapshotVoterError::MerkleRootMissing)
    } else if registrar.proposal != proposal {
        Some(SnapshotVoterError::ProposalMismatch)
    } else if !claim_verifies(registrar.root, record.governing_token_owner@, amount, data) {
        Some(SnapshotVoterError::ProofVerificationFailed)
    } else if token_owner_record.governing_token_owner != record.governing_token_owner {
        Some(SnapshotVoterError::GoverningTokenOwnerMustMatch)
    } else if token_owner_record.realm == registrar.realm {
        Some(SnapshotVoterError::TokenOwnerRecordFromOwnRealmNotAllowed)
    } else {
        None
    }
}

/// `record` after a successful update: weight `amount`, valid at clock value `slot` only,
/// for any action, on the decision instance `proposal` only.
pub open spec fn weight_applied(
    record: VoterWeightRecord,
    amount: u64,
    slot: u64,
    proposal: Pubkey,
) -> VoterWeightRecord {
    VoterWeightRecord {
        voter_weight: amount,
        voter_weight_expiry: Some(slot),
        weight_action: None,
        weight_action_target: Some(proposal),
        ..record
    }
}

/// Submitting again a weight update that was accepted, against the same registrar and
/// membership record, is accepted again: the weight and its scope stay as they were and
/// only the clock value of validity moves to the new one.
pub proof fn lemma_resubmission_idempotent(
    registrar: Registrar,
    record: VoterWeightRecord,
    token_owner_record: TokenOwnerRecord,
    proposal: Pubkey,
    amount: u64,
    data: Seq<u8>,
    slot: u64,
    later_slot: u64,
)
    requires
        weight_update_error(registrar, record, token_owner_record, proposal, amount, data) is None,
    ensures
        ({
            let first = weight_applied(record, amount, slot, registrar.proposal);
            &&& weight_update_error(registrar, first, token_owner_record, proposal, amount, data)
                is None
            &&& weight_applied(first, amount, later_slot, registrar.proposal) == (VoterWeightRecord {
                voter_weight_expiry: Some(later_slot),
                ..first
            })
            &&& first.voter_weight == amount
        }),
{
}

/// A weight update made for a decision instance other than the one the registrar is
/// bound to is refused with `ProposalMismatch`, whatever the claim and the membership
/// record, once a root is published and the record belongs to the registrar's realm
/// and mint.
pub proof fn lemma_superseded_proposal_refused(
    registrar: Registrar,
    record: VoterWeightRecord,
    token_owner_record: TokenOwnerRecord,
    proposal: Pubkey,
    amount: u64,
    data: Seq<u8>,
)
    requires
        !is_zero(registrar.root),
        record.realm == registrar.realm,
        record.governing_token_mint == registrar.governing_token_mint,
        proposal != registrar.proposal,
    ensures
        weight_update_error(registrar, record, token_owner_record, proposal, amount, data)
            == Some(SnapshotVoterError::ProposalMismatch),
{
}

/// A weight update made before any root is published is refused with
/// `MerkleRootMissing`, whatever the claim, once the record belongs to the registrar's
/// realm and mint.
pub proof fn lemma_missing_root_refused(
    registrar: Registrar,
    record: VoterWeightRecord,
    token_owner_record: TokenOwnerRecord,
    proposal: Pubkey,
    amount: u64,
    data: Seq<u8>,
)
    requires
        is_zero(registrar.root),
        record.realm == registrar.realm,
        record.governing_token_mint == registrar.governing_token_mint,
    ensures
        weight_update_error(registrar, record, token_owner_record, proposal, amount, data)
            == Some(SnapshotVoterError::MerkleRootMissing),
{
}

/// A new weight record of `governing_token_owner` under `registrar`.
pub fn create_voter_weight_record(registrar: &Registrar, governing_token_owner: Pubkey) -> (r:
    VoterWeightRecord)
    ensures
        r == new_voter_weight_record(*registrar, governing_token_owner),
{
    VoterWeightRecord {
        realm: registrar.realm,
        governing_token_mint: registrar.governing_token_mint,
        governing_token_owner,
        voter_weight: 0,
        voter_weight_expiry: None,
        weight_action: None,
        weight_action_target: None,
    }
}

/// A new population ceiling record under `registrar`.
pub fn create_max_voter_weight_record(registrar: &Registrar) -> (r: MaxVoterWeightRecord)
    ensures
        r == new_max_voter_weight_record(*registrar),
{
    MaxVoterWeightRecord {
        realm: registrar.realm,
        governing_token_mint: registrar.governing_token_mint,
        max_voter_weight: 0,
        max_voter_weight_expiry: Some(0),
    }
}

/// Whether the proof bundle `data` proves that `voter` holds `amount` in the snapshot
/// committed by `root`.
pub fn verify_claim(root: &[u8; 32], voter: &Pubkey, amount: u64, data: &[u8]) -> (r: bool)
    ensures
        r == claim_verifies(*root, voter@, amount, data@),
{
    match ProofBundle::parse(data) {
        None => false,
        Some(bundle) => {
            let leaf = leaf_hash(bundle.index, voter, amount);
            verify_proof(bundle.proof, *root, leaf)
        },
    }
}

/// Sets the weight of `voter_weight_record` to `amount`, for clock value `slot` and the
/// decision instance `proposal`, once the claim is proved against the registrar's root.
///
/// `token_owner_record` is the voter's membership record, as the governance program
/// that owns it holds it: it must be for the same voter and from another realm than the
/// registrar's. The checks run in the order of `weight_update_error`; on the first
/// failure its error is returned and the record is left as it was.
pub fn update_voter_weight_record(
    registrar: &Registrar,
    voter_weight_record: &mut VoterWeightRecord,
    token_owner_record: &TokenOwnerRecord,
    proposal: &Pubkey,
    amount: u64,
    verification_data: &[u8],
    slot: u64,
) -> (r: Result<(), SnapshotVoterError>)
    ensures
        match weight_update_error(
            *registrar,
            *old(voter_weight_record),
            *token_owner_record,
            *proposal,
            amount,
            verification_data@,
        ) {
            Some(e) => r == Err::<(), SnapshotVoterError>(e) && *final(voter_weight_record) == *old(
                voter_weight_record,
            ),
            None => r is Ok && *final(voter_weight_record) == weight_applied(
                *old(voter_weight_record),
                amount,
                slot,
                registrar.proposal,
            ),
        },
        r is Ok ==> token_owner_record.realm != registrar.realm,
        r is Ok ==> final(voter_weight_record).weight_action_target == Some(registrar.proposal),
{
    if !bytes_eq(&voter_weight_record.realm, &registrar.realm) {
        return Err(SnapshotVoterError::InvalidVoterWeightRecordRealm);
    }
    if !bytes_eq(&voter_weight_record.governing_token_mint, &registrar.governing_token_mint) {
        return Err(SnapshotVoterError::InvalidVoterWeightRecordMint);
    }
    if bytes_is_zero(&registrar.root) {
        return Err(SnapshotVoterError::MerkleRootMissing);
    }
    if !bytes_eq(&registrar.proposal, proposal) {
        return Err(SnapshotVoterError::ProposalMismatch);
    }
    if !verify_claim(
        &registrar.root,
        &voter_weight_record.governing_token_owner,
        amount,
        verification_data,
    ) {
        return Err(SnapshotVoterError::ProofVerificationFailed);
    }
    if !bytes_eq(
        &token_owner_record.governing_token_owner,
        &voter_weight_record.governing_token_owner,
    ) {
        return Err(SnapshotVoterError::GoverningTokenOwnerMustMatch);
    }
    if bytes_eq(&token_owner_record.realm, &registrar.realm) {
        return Err(SnapshotVoterError::TokenOwnerRecordFromOwnRealmNotAllowed);
    }
    voter_weight_record.voter_weight = amount;
    voter_weight_record.voter_weight_expiry = Some(slot);
    voter_weight_record.weight_action = None;
    voter_weight_record.weight_action_target = Some(registrar.proposal);
    Ok(())
}

} // verus!
