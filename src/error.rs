//! The errors that the registrar and the weight update report.
use vstd::prelude::*;

verus! {

/// Why a registrar or weight operation was refused. Every check is a precondition of
/// the operation: on the first failure nothing is changed.
#[derive(Clone, Copy, Debug, PartialEq, Eq, Structural)]
pub enum SnapshotVoterError {
    /// The signer is not the realm's authority.
    InvalidRealmAuthority,
    /// The realm does not belong to the registrar.
    InvalidRealmForRegistrar,
    /// The weight record is for another realm than the registrar's.
    InvalidVoterWeightRecordRealm,
    /// The weight record is for another governing mint than the registrar's.
    InvalidVoterWeightRecordMint,
    /// Membership of the registrar's own realm cannot grant weight in it.
    TokenOwnerRecordFromOwnRealmNotAllowed,
    /// The governance program instance is not configured (reserved).
    GovernanceProgramNotConfigured,
    /// The membership record and the weight record are for different voters.
    GoverningTokenOwnerMustMatch,
    /// The decision instance is not in its draft state.
    InvalidProposalState,
    /// No snapshot root has been published.
    MerkleRootMissing,
    /// The decision instance is not the one the registrar is bound to.
    ProposalMismatch,
    /// The proof bundle does not lead from the claimed row to the published root.
    ProofVerificationFailed,
}

/// The message that describes `e`.
pub open spec fn error_message(e: SnapshotVoterError) -> Seq<char> {
    match e {
        SnapshotVoterError::InvalidRealmAuthority => "Invalid Realm Authority"@,
        SnapshotVoterError::InvalidRealmForRegistrar => "Invalid Realm for Registrar"@,
        SnapshotVoterError::InvalidVoterWeightRecordRealm => "Invalid VoterWeightRecord Realm"@,
        SnapshotVoterError::InvalidVoterWeightRecordMint => "Invalid VoterWeightRecord Mint"@,
        SnapshotVoterError::TokenOwnerRecordFromOwnRealmNotAllowed => "TokenOwnerRecord from own realm is not allowed"@,
        SnapshotVoterError::GovernanceProgramNotConfigured => "Governance program not configured"@,
        SnapshotVoterError::GoverningTokenOwnerMustMatch => "Governing TokenOwner must match"@,
        SnapshotVoterError::InvalidProposalState => "Invalid Proposal state"@,
        SnapshotVoterError::MerkleRootMissing => "Merkle Root missing. Proposal state"@,
        SnapshotVoterError::ProposalMismatch => "Proposal mismatch. Please update registrar"@,
        SnapshotVoterError::ProofVerificationFailed => "Proof verification failed"@,
    }
}

impl SnapshotVoterError {
    /// The message that describes the error.
    pub fn message(&self) -> (r: String)
        ensures
            r@ == error_message(*self),
    {
        match self {
            SnapshotVoterError::InvalidRealmAuthority => "Invalid Realm Authority".to_owned(),
            SnapshotVoterError::InvalidRealmForRegistrar => "Invalid Realm for Registrar".to_owned(),
            SnapshotVoterError::InvalidVoterWeightRecordRealm => "Invalid VoterWeightRecord Realm".to_owned(),
            SnapshotVoterError::InvalidVoterWeightRecordMint => "Invalid VoterWeightRecord Mint".to_owned(),
            SnapshotVoterError::TokenOwnerRecordFromOwnRealmNotAllowed => "TokenOwnerRecord from own realm is not allowed".to_owned(),
            SnapshotVoterError::GovernanceProgramNotConfigured => "Governance program not configured".to_owned(),
            SnapshotVoterError::GoverningTokenOwnerMustMatch => "Governing TokenOwner must match".to_owned(),
            SnapshotVoterError::InvalidProposalState => "Invalid Proposal state".to_owned(),
            SnapshotVoterError::MerkleRootMissing => "Merkle Root missing. Proposal state".to_owned(),
            SnapshotVoterError::ProposalMismatch => "Proposal mismatch. Please update registrar".to_owned(),
            SnapshotVoterError::ProofVerificationFailed => "Proof verification failed".to_owned(),
        }
    }
}

} // verus!
