//! The records this library keeps: the registrar and the weight records.
use vstd::prelude::*;

use crate::bytes::{to_bytes_vec, Pubkey};

verus! {

/// Identity of this program: the owner of its registrars and weight records.
pub const ID: Pubkey = [
    90, 105, 2, 64, 2, 255, 183, 217, 100, 175, 102, 82, 6, 254, 248, 108,
    3, 181, 86, 126, 189, 110, 122, 247, 167, 35, 34, 194, 205, 34, 131, 51,
];

/// Length of the type tag stored ahead of a record.
pub const DISCRIMINATOR_LEN: usize = 8;

/// Change to an item of a configured collection.
#[derive(Clone, Copy, Debug, PartialEq, Eq, Structural)]
pub enum CollectionItemChangeType {
    /// Update the item if it exists, insert it otherwise.
    Upsert,
    /// Remove the item.
    Remove,
}

/// Lifecycle state of a decision instance (a proposal) of the governance program.
#[derive(Clone, Copy, Debug, PartialEq, Eq, Structural)]
pub enum ProposalState {
    Draft,
    SigningOff,
    Voting,
    Succeeded,
    Executing,
    Completed,
    Cancelled,
    Defeated,
    ExecutingWithErrors,
    Vetoed,
}

/// Action that a weight is valid for.
#[derive(Clone, Copy, Debug, PartialEq, Eq, Structural)]
pub enum VoterWeightAction {
    CastVote,
    CommentProposal,
    CreateGovernance,
    CreateProposal,
    SignOffProposal,
}

/// Snapshot configuration of one (realm, governing mint) pair: the governance program
/// it trusts, the committed snapshot root (all zero when unset), the off-chain pointer
/// to the snapshot, and the decision instance the snapshot is for.
#[derive(Clone, Debug, PartialEq, Eq)]
pub struct Registrar {
    pub governance_program_id: Pubkey,
    pub realm: Pubkey,
    pub governing_token_mint: Pubkey,
    pub root: [u8; 32],
    pub uri: Option<String>,
    pub proposal: Pubkey,
}

/// Weight of one voter for one registrar, as the governance program reads it.
#[derive(Clone, Copy, Debug, PartialEq, Eq)]
pub struct VoterWeightRecord {
    pub realm: Pubkey,
    pub governing_token_mint: Pubkey,
    pub governing_token_owner: Pubkey,
    pub voter_weight: u64,
    /// The clock value at which the weight is valid; always valid when unset.
    pub voter_weight_expiry: Option<u64>,
    /// The action the weight is valid for; any action when unset.
    pub weight_action: Option<VoterWeightAction>,
    /// The decision instance the weight is valid for; any when unset.
    pub weight_action_target: Option<Pubkey>,
}

/// The population ceiling of one (realm, governing mint) pair.
#[derive(Clone, Copy, Debug, PartialEq, Eq)]
pub struct MaxVoterWeightRecord {
    pub realm: Pubkey,
    pub governing_token_mint: Pubkey,
    pub max_voter_weight: u64,
    pub max_voter_weight_expiry: Option<u64>,
}

/// What the governance program records of a member: the realm and the member's identity.
#[derive(Clone, Copy, Debug, PartialEq, Eq)]
pub struct TokenOwnerRecord {
    pub realm: Pubkey,
    pub governing_token_owner: Pubkey,
}

/// Bytes that the serialised form of `uri` takes: a one-byte tag, then, when present,
/// a four-byte length and the UTF-8 bytes.
pub open spec fn uri_space(uri: Option<String>) -> int {
    match uri {
        Some(u) => 1 + 4 + vstd::utf8::encode_utf8(u@).len() as int,
        None => 1,
    }
}

/// Bytes that a registrar with the given uri takes in storage: the type tag, four
/// identities, the root and the uri.
pub open spec fn registrar_space(uri: Option<String>) -> int {
    DISCRIMINATOR_LEN + 32 * 4 + 32 + uri_space(uri)
}

/// The seed that opens every registrar's address derivation.
pub open spec fn registrar_seed_prefix() -> Seq<u8> {
    seq![114u8, 101, 103, 105, 115, 116, 114, 97, 114]
}

/// The seeds that derive the address of the registrar of (`realm`, `mint`).
pub open spec fn registrar_seeds(realm: Seq<u8>, mint: Seq<u8>) -> Seq<Seq<u8>> {
    seq![registrar_seed_prefix(), realm, mint]
}

/// The address that Solana derives from `seeds` under `program_id`, with its bump seed;
/// `None` when no bump gives one.
pub uninterp spec fn program_address_of(seeds: Seq<Seq<u8>>, program_id: Seq<u8>) -> Option<([u8; 32], u8)>;

/// Relies on solana_program::pubkey::Pubkey::try_find_program_address: the first
/// off-curve address derived from the seeds and a bump seed, a function of the seeds
/// and the program identity alone.
#[verifier::external_body]
fn try_find_program_address(seeds: &Vec<Vec<u8>>, program_id: &Pubkey) -> (r: Option<(Pubkey, u8)>)
    ensures
        r == program_address_of(seeds@.map_values(|s: Vec<u8>| s@), program_id@),
{
    let slices: Vec<&[u8]> = seeds.iter().map(|s| s.as_slice()).collect();
    let id = solana_program::pubkey::Pubkey::new_from_array(*program_id);
    solana_program::pubkey::Pubkey::try_find_program_address(&slices, &id).map(|(a, b)| (a.to_bytes(), b))
}

impl Registrar {
    /// Bytes that a registrar with the given uri takes in storage.
    pub fn get_space(uri: Option<String>) -> (r: usize)
        requires
            registrar_space(uri) <= usize::MAX,
        ensures
            r == registrar_space(uri),
    {
        let uri_len: usize = match &uri {
            Some(u) => 1 + 4 + u.as_str().len(),
            None => 1,
        };
        DISCRIMINATOR_LEN + 32 * 4 + 32 + uri_len
    }
}

/// The seeds of the registrar of (`realm`, `governing_token_mint`).
pub fn get_registrar_seeds(realm: &Pubkey, governing_token_mint: &Pubkey) -> (r: Vec<Vec<u8>>)
    ensures
        r@.map_values(|s: Vec<u8>| s@) == registrar_seeds(realm@, governing_token_mint@),
{
    let prefix: Vec<u8> = vec![114u8, 101, 103, 105, 115, 116, 114, 97, 114];
    let mut r: Vec<Vec<u8>> = Vec::new();
    r.push(prefix);
    r.push(to_bytes_vec(realm));
    r.push(to_bytes_vec(governing_token_mint));
    assert(r@.map_values(|s: Vec<u8>| s@) =~= registrar_seeds(realm@, governing_token_mint@));
    r
}

/// The address of the registrar of (`realm`, `governing_token_mint`) under this program;
/// `None` when no address can be derived from its seeds.
pub fn get_registrar_address(realm: &Pubkey, governing_token_mint: &Pubkey) -> (r: Option<Pubkey>)
    ensures
        r == match program_address_of(registrar_seeds(realm@, governing_token_mint@), ID@) {
            Some(found) => Some(found.0),
            None => None,
        },
{
    let seeds = get_registrar_seeds(realm, governing_token_mint);
    let id: Pubkey = ID;
    match try_find_program_address(&seeds, &id) {
        Some(found) => Some(found.0),
        None => None,
    }
}

} // verus!
