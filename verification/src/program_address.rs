//! Addresses that the Omnipair program derives from seeds.
//!
//! The search for such an address, which hashes the seeds and tests points of a curve, is done by
//! `anchor_lang`'s `Pubkey`. Its outcome has a name here and no further description.

use crate::pair::OmnipairPair;
use crate::pubkey::{Pubkey, OMNIPAIR_PROGRAM_ID};
use vstd::prelude::*;

verus! {

/// `reserve_vault` in ASCII.
pub const RESERVE_VAULT_SEED_PREFIX: [u8; 13] = [
    0x72, 0x65, 0x73, 0x65, 0x72, 0x76, 0x65, 0x5f, 0x76, 0x61, 0x75, 0x6c, 0x74,
];

/// `futarchy_authority` in ASCII.
pub const FUTARCHY_AUTHORITY_SEED_PREFIX: [u8; 18] = [
    0x66, 0x75, 0x74, 0x61, 0x72, 0x63, 0x68, 0x79, 0x5f, 0x61, 0x75, 0x74, 0x68, 0x6f, 0x72, 0x69,
    0x74, 0x79,
];

/// `__event_authority` in ASCII.
pub const EVENT_AUTHORITY_SEED: [u8; 17] = [
    0x5f, 0x5f, 0x65, 0x76, 0x65, 0x6e, 0x74, 0x5f, 0x61, 0x75, 0x74, 0x68, 0x6f, 0x72, 0x69, 0x74,
    0x79,
];

/// What `Pubkey::try_find_program_address` finds for some seeds and a program: the bytes of an
/// address and its bump seed, or nothing.
pub uninterp spec fn program_address(seeds: Seq<Seq<u8>>, program_id: Seq<u8>) -> Option<
    (Seq<u8>, u8),
>;

/// The bytes of each seed.
pub open spec fn seed_bytes(seeds: Seq<&[u8]>) -> Seq<Seq<u8>> {
    seeds.map_values(|seed: &[u8]| seed@)
}

/// A found address by its bytes.
pub open spec fn found_bytes(found: Option<(Pubkey, u8)>) -> Option<(Seq<u8>, u8)> {
    match found {
        Some((address, bump)) => Some((address@, bump)),
        None => None,
    }
}

/// `Pubkey::try_find_program_address` of `anchor_lang` is a function of the seeds and the program
/// alone, and does not panic. It returns nothing when no bump seed leads to an address, or when
/// there are too many seeds or one is too long. Which address it finds is left unsaid: that rests
/// on a hash and a curve.
#[verifier::external_body]
fn try_find_program_address(seeds: &[&[u8]], program_id: &Pubkey) -> (found: Option<(Pubkey, u8)>)
    ensures
        found_bytes(found) == program_address(seed_bytes(seeds@), program_id@),
{
    anchor_lang::prelude::Pubkey::try_find_program_address(
        seeds,
        &anchor_lang::prelude::Pubkey::new_from_array(program_id.bytes),
    ).map(|(address, bump)| (Pubkey { bytes: address.to_bytes() }, bump))
}

/// The seeds of the vault that holds a pool's reserve of `mint`.
pub open spec fn reserve_vault_seeds(pair_key: Pubkey, mint: Pubkey) -> Seq<Seq<u8>> {
    seq![RESERVE_VAULT_SEED_PREFIX@, pair_key@, mint@]
}

/// The seeds of the futarchy authority.
pub open spec fn futarchy_authority_seeds() -> Seq<Seq<u8>> {
    seq![FUTARCHY_AUTHORITY_SEED_PREFIX@]
}

/// The seeds of the event authority.
pub open spec fn event_authority_seeds() -> Seq<Seq<u8>> {
    seq![EVENT_AUTHORITY_SEED@]
}

/// The Omnipair program has an address for these seeds.
pub open spec fn has_address(seeds: Seq<Seq<u8>>) -> bool {
    program_address(seeds, OMNIPAIR_PROGRAM_ID@) is Some
}

/// `address` is the Omnipair program's address for these seeds.
pub open spec fn is_address(address: Pubkey, seeds: Seq<Seq<u8>>) -> bool {
    program_address(seeds, OMNIPAIR_PROGRAM_ID@) matches Some((bytes, _)) && bytes == address@
}

/// The addresses that belong to a pool, computed once from its state.
#[derive(Debug, Clone, Copy)]
pub struct DerivedAccounts {
    pub reserve_vault0: Pubkey,
    pub reserve_vault1: Pubkey,
    pub futarchy_authority: Pubkey,
    pub event_authority: Pubkey,
}

/// The vault of a pool's reserve of `mint`, if there is one.
fn find_reserve_vault(pair_key: &Pubkey, mint: &Pubkey) -> (found: Option<Pubkey>)
    ensures
        found is Some <==> has_address(reserve_vault_seeds(*pair_key, *mint)),
        found matches Some(address) ==> is_address(address, reserve_vault_seeds(*pair_key, *mint)),
{
    let seeds: [&[u8]; 3] = [&RESERVE_VAULT_SEED_PREFIX, &pair_key.bytes, &mint.bytes];
    let found = try_find_program_address(&seeds, &Pubkey { bytes: OMNIPAIR_PROGRAM_ID });
    assert(seed_bytes(seeds@) =~= reserve_vault_seeds(*pair_key, *mint));
    match found {
        Some((address, _)) => Some(address),
        None => None,
    }
}

/// The futarchy authority, if there is one.
fn find_futarchy_authority() -> (found: Option<Pubkey>)
    ensures
        found is Some <==> has_address(futarchy_authority_seeds()),
        found matches Some(address) ==> is_address(address, futarchy_authority_seeds()),
{
    let seeds: [&[u8]; 1] = [&FUTARCHY_AUTHORITY_SEED_PREFIX];
    let found = try_find_program_address(&seeds, &Pubkey { bytes: OMNIPAIR_PROGRAM_ID });
    assert(seed_bytes(seeds@) =~= futarchy_authority_seeds());
    match found {
        Some((address, _)) => Some(address),
        None => None,
    }
}

/// The event authority, if there is one.
fn find_event_authority() -> (found: Option<Pubkey>)
    ensures
        found is Some <==> has_address(event_authority_seeds()),
        found matches Some(address) ==> is_address(address, event_authority_seeds()),
{
    let seeds: [&[u8]; 1] = [&EVENT_AUTHORITY_SEED];
    let found = try_find_program_address(&seeds, &Pubkey { bytes: OMNIPAIR_PROGRAM_ID });
    assert(seed_bytes(seeds@) =~= event_authority_seeds());
    match found {
        Some((address, _)) => Some(address),
        None => None,
    }
}

impl DerivedAccounts {
    /// The Omnipair program has all four addresses for this pool.
    pub open spec fn exist_for(pair_key: Pubkey, state: OmnipairPair) -> bool {
        &&& has_address(reserve_vault_seeds(pair_key, state.token0))
        &&& has_address(reserve_vault_seeds(pair_key, state.token1))
        &&& has_address(futarchy_authority_seeds())
        &&& has_address(event_authority_seeds())
    }

    /// These are the addresses that belong to this pool.
    pub open spec fn belong_to(self, pair_key: Pubkey, state: OmnipairPair) -> bool {
        &&& is_address(self.reserve_vault0, reserve_vault_seeds(pair_key, state.token0))
        &&& is_address(self.reserve_vault1, reserve_vault_seeds(pair_key, state.token1))
        &&& is_address(self.futarchy_authority, futarchy_authority_seeds())
        &&& is_address(self.event_authority, event_authority_seeds())
    }

    /// Whether the pool has all its addresses.
    pub fn can_compute(pair_key: &Pubkey, state: &OmnipairPair) -> (possible: bool)
        ensures
            possible == Self::exist_for(*pair_key, *state),
    {
        find_reserve_vault(pair_key, &state.token0).is_some() && find_reserve_vault(
            pair_key,
            &state.token1,
        ).is_some() && find_futarchy_authority().is_some() && find_event_authority().is_some()
    }

    /// Derives the addresses of a pool that has them all.
    pub fn compute(pair_key: &Pubkey, state: &OmnipairPair) -> (derived: Self)
        requires
            Self::exist_for(*pair_key, *state),
        ensures
            derived.belong_to(*pair_key, *state),
    {
        DerivedAccounts {
            reserve_vault0: find_reserve_vault(pair_key, &state.token0).unwrap(),
            reserve_vault1: find_reserve_vault(pair_key, &state.token1).unwrap(),
            futarchy_authority: find_futarchy_authority().unwrap(),
            event_authority: find_event_authority().unwrap(),
        }
    }
}

} // verus!
