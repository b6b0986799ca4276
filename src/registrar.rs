//! Creating and re-binding a registrar.
use vstd::prelude::*;

use crate::bytes::{bytes_eq, is_zero, Pubkey};
use crate::error::SnapshotVoterError;
use crate::state::{ProposalState, Registrar};

verus! {

/// The realm's recorded authority is present and is `signer`.
pub open spec fn is_realm_authority(realm_authority: Option<Pubkey>, signer: Pubkey) -> bool {
    realm_authority == Some(signer)
}

/// `registrar` is a new registrar for (`realm`, `governing_token_mint`) under
/// `governance_program_id`: no root (all zero), no uri, no decision instance (all zero).
pub open spec fn is_new_registrar(
    registrar: Registrar,
    governance_program_id: Pubkey,
    realm: Pubkey,
    governing_token_mint: Pubkey,
) -> bool {
    &&& registrar.governance_program_id == governance_program_id
    &&& registrar.realm == realm
    &&& registrar.governing_token_mint == governing_token_mint
    &&& is_zero(registrar.root)
    &&& registrar.uri is None
    &&& is_zero(registrar.proposal)
}

/// What the first failing check of a registrar update is, if any.
pub open spec fn update_registrar_error(
    realm_authority: Option<Pubkey>,
    signer: Pubkey,
    proposal_state: ProposalState,
) -> Option<SnapshotVoterError> {
    if !is_realm_authority(realm_authority, signer) {
        Some(SnapshotVoterError::InvalidRealmAuthority)
    } else if proposal_state != ProposalState::Draft {
        Some(SnapshotVoterError::InvalidProposalState)
    } else {
        None
    }
}

/// A registrar update asked by the realm's authority while the decision instance is not
/// a draft is refused with `InvalidProposalState`, so the registrar keeps its root, uri
/// and decision instance.
pub proof fn lemma_non_draft_update_refused(
    realm_authority: Option<Pubkey>,
    signer: Pubkey,
    proposal_state: ProposalState,
)
    requires
        is_realm_authority(realm_authority, signer),
        proposal_state != ProposalState::Draft,
    ensures
        update_registrar_error(realm_authority, signer, proposal_state) == Some(
            SnapshotVoterError::InvalidProposalState,
        ),
{
}

/// Whether the realm's recorded authority is present and is `signer`.
pub fn check_realm_authority(realm_authority: &Option<Pubkey>, signer: &Pubkey) -> (r: bool)
    ensures
        r == is_realm_authority(*realm_authority, *signer),
{
    match realm_authority {
        Some(authority) => bytes_eq(authority, signer),
        None => false,
    }
}

/// Creates the registrar of (`realm`, `governing_token_mint`).
///
/// `realm_authority` is the authority recorded in the realm, as the governance program
/// `governance_program_id` holds it (the realm found owned by that program, the mint one
/// of its two accepted mints); `signer` is who asks. The registrar is created only when
/// the signer is that authority.
pub fn create_registrar(
    governance_program_id: Pubkey,
    realm: Pubkey,
    governing_token_mint: Pubkey,
    realm_authority: Option<Pubkey>,
    signer: Pubkey,
) -> (r: Result<Registrar, SnapshotVoterError>)
    ensures
        r is Ok <==> is_realm_authority(realm_authority, signer),
        r matches Ok(registrar) ==> is_new_registrar(
            registrar,
            governance_program_id,
            realm,
            governing_token_mint,
        ),
        r matches Err(e) ==> e == SnapshotVoterError::InvalidRealmAuthority,
{
    if !check_realm_authority(&realm_authority, &signer) {
        return Err(SnapshotVoterError::InvalidRealmAuthority);
    }
    Ok(
        Registrar {
            governance_program_id,
            realm,
            governing_token_mint,
            root: [0u8; 32],
            uri: None,
            proposal: [0u8; 32],
        },
    )
}

/// Binds `registrar` to a new snapshot `root`, its off-chain pointer `uri`, and the
/// decision instance `proposal`.
///
/// `realm_authority` is the authority recorded in the registrar's realm, looked up again
/// as at creation; `signer` is who asks; `proposal_state` is the state of `proposal` as
/// the registrar's governance program holds it. The signer must be the realm's authority
/// (else `InvalidRealmAuthority`), and then the decision instance must still be a draft
/// (else `InvalidProposalState`), so a snapshot is never replaced during a vote. On
/// success the three fields are replaced together; on failure nothing changes.
pub fn update_registrar(
    registrar: &mut Registrar,
    root: [u8; 32],
    uri: Option<String>,
    proposal: Pubkey,
    proposal_state: ProposalState,
    realm_authority: Option<Pubkey>,
    signer: Pubkey,
) -> (r: Result<(), SnapshotVoterError>)
    ensures
        match update_registrar_error(realm_authority, signer, proposal_state) {
            Some(e) => r == Err::<(), SnapshotVoterError>(e) && *final(registrar) == *old(registrar),
            None => r is Ok && *final(registrar) == (Registrar {
                root,
                uri,
                proposal,
                ..*old(registrar)
            }),
        },
{
    if !check_realm_authority(&realm_authority, &signer) {
        return Err(SnapshotVoterError::InvalidRealmAuthority);
    }
    match proposal_state {
        ProposalState::Draft => {},
        _ => {
            return Err(SnapshotVoterError::InvalidProposalState);
        },
    }
    registrar.root = root;
    registrar.uri = uri;
    registrar.proposal = proposal;
    Ok(())
}

} // verus!
