//! Which seeds the addresses of a pool come from.

use crate::client::OmnipairAmmClient;
use crate::pair::OmnipairPair;
use crate::program_address::{
    event_authority_seeds, found_bytes, futarchy_authority_seeds, program_address,
    reserve_vault_seeds, seed_bytes, DerivedAccounts, EVENT_AUTHORITY_SEED,
    FUTARCHY_AUTHORITY_SEED_PREFIX, RESERVE_VAULT_SEED_PREFIX,
};
use crate::pubkey::{lemma_pubkey_ext, Pubkey, OMNIPAIR_PROGRAM_ID};
use vstd::prelude::*;

verus! {

/// The bytes are this text in ASCII.
pub open spec fn spells(bytes: Seq<u8>, text: Seq<char>) -> bool {
    &&& bytes.len() == text.len()
    &&& forall|i: int| 0 <= i < bytes.len() ==> #[trigger] bytes[i] as int == text[i] as int
}

/// The seed is the bytes of an address, in their order.
pub open spec fn is_key(seed: Seq<u8>, bytes: [u8; 32]) -> bool {
    &&& seed.len() == 32
    &&& forall|i: int| 0 <= i < 32 ==> #[trigger] seed[i] == bytes[i]
}

/// `address` is what the search finds for these seeds under the Omnipair program.
pub open spec fn found_for(address: Pubkey, seeds: Seq<Seq<u8>>) -> bool {
    exists|bump: u8|
        program_address(seeds, OMNIPAIR_PROGRAM_ID@) == Some((address.bytes@, bump))
}

/// The prefixes of the seeds, as text.
proof fn lemma_prefixes()
    ensures
        spells(RESERVE_VAULT_SEED_PREFIX@, "reserve_vault"@),
        spells(FUTARCHY_AUTHORITY_SEED_PREFIX@, "futarchy_authority"@),
        spells(EVENT_AUTHORITY_SEED@, "__event_authority"@),
{
    reveal_strlit("reserve_vault");
    reveal_strlit("futarchy_authority");
    reveal_strlit("__event_authority");
}

/// A text is spelled in one way.
proof fn lemma_one_spelling(a: Seq<u8>, b: Seq<u8>, text: Seq<char>)
    requires
        spells(a, text),
        spells(b, text),
    ensures
        a == b,
{
    assert forall|i: int| 0 <= i < a.len() implies a[i] == b[i] by {
        assert(a[i] as int == text[i] as int);
        assert(b[i] as int == text[i] as int);
    }
    assert(a =~= b);
}

/// A vault has three seeds: the text `reserve_vault`, the address of the pool, and the mint, the
/// bytes of each in their order.
pub proof fn law_vault_seeds(pair_key: Pubkey, mint: Pubkey)
    ensures
        reserve_vault_seeds(pair_key, mint).len() == 3,
        spells(reserve_vault_seeds(pair_key, mint)[0], "reserve_vault"@),
        is_key(reserve_vault_seeds(pair_key, mint)[1], pair_key.bytes),
        is_key(reserve_vault_seeds(pair_key, mint)[2], mint.bytes),
{
    lemma_prefixes();
}

/// The two authorities have one seed each, a text, and none that comes from a pool.
pub proof fn law_authority_seeds()
    ensures
        futarchy_authority_seeds().len() == 1,
        spells(futarchy_authority_seeds()[0], "futarchy_authority"@),
        event_authority_seeds().len() == 1,
        spells(event_authority_seeds()[0], "__event_authority"@),
{
    lemma_prefixes();
}

/// Different pools, and different mints of a pool, have different seeds for their vaults.
pub proof fn law_vault_seeds_differ(key: Pubkey, mint: Pubkey, other_key: Pubkey, other_mint: Pubkey)
    requires
        reserve_vault_seeds(key, mint) == reserve_vault_seeds(other_key, other_mint),
    ensures
        key == other_key,
        mint == other_mint,
{
    let seeds = reserve_vault_seeds(key, mint);
    assert(seeds[1] == key@ && seeds[1] == other_key@);
    assert(seeds[2] == mint@ && seeds[2] == other_mint@);
    lemma_pubkey_ext(key, other_key);
    lemma_pubkey_ext(mint, other_mint);
}

/// The search is given the seeds as they are, and what it finds is taken as it is.
pub proof fn law_search_is_passed_through(seeds: Seq<&[u8]>, address: Pubkey, bump: u8)
    ensures
        seed_bytes(seeds).len() == seeds.len(),
        forall|i: int| 0 <= i < seeds.len() ==> #[trigger] seed_bytes(seeds)[i] == seeds[i]@,
        found_bytes(Some((address, bump))) == Some((address.bytes@, bump)),
        found_bytes(None) is None,
{
}

/// The addresses of a pool are those that the search finds for the seeds of its vaults, one with
/// each of its mints in its own place, and for the seeds of the two authorities; and the pool has
/// its addresses exactly when the search finds all four.
pub proof fn law_addresses_come_from_the_seeds(
    derived: DerivedAccounts,
    pair_key: Pubkey,
    state: OmnipairPair,
    vault0: Seq<Seq<u8>>,
    vault1: Seq<Seq<u8>>,
    futarchy: Seq<Seq<u8>>,
    event: Seq<Seq<u8>>,
)
    requires
        vault0.len() == 3,
        spells(vault0[0], "reserve_vault"@),
        is_key(vault0[1], pair_key.bytes),
        is_key(vault0[2], state.token0.bytes),
        vault1.len() == 3,
        spells(vault1[0], "reserve_vault"@),
        is_key(vault1[1], pair_key.bytes),
        is_key(vault1[2], state.token1.bytes),
        futarchy.len() == 1,
        spells(futarchy[0], "futarchy_authority"@),
        event.len() == 1,
        spells(event[0], "__event_authority"@),
    ensures
        DerivedAccounts::exist_for(pair_key, state) <==> {
            &&& program_address(vault0, OMNIPAIR_PROGRAM_ID@) is Some
            &&& program_address(vault1, OMNIPAIR_PROGRAM_ID@) is Some
            &&& program_address(futarchy, OMNIPAIR_PROGRAM_ID@) is Some
            &&& program_address(event, OMNIPAIR_PROGRAM_ID@) is Some
        },
        derived.belong_to(pair_key, state) <==> {
            &&& found_for(derived.reserve_vault0, vault0)
            &&& found_for(derived.reserve_vault1, vault1)
            &&& found_for(derived.futarchy_authority, futarchy)
            &&& found_for(derived.event_authority, event)
        },
{
    lemma_prefixes();
    lemma_one_spelling(vault0[0], RESERVE_VAULT_SEED_PREFIX@, "reserve_vault"@);
    lemma_one_spelling(vault1[0], RESERVE_VAULT_SEED_PREFIX@, "reserve_vault"@);
    lemma_one_spelling(futarchy[0], FUTARCHY_AUTHORITY_SEED_PREFIX@, "futarchy_authority"@);
    lemma_one_spelling(event[0], EVENT_AUTHORITY_SEED@, "__event_authority"@);
    assert(vault0[1] =~= pair_key@);
    assert(vault0[2] =~= state.token0@);
    assert(vault1[1] =~= pair_key@);
    assert(vault1[2] =~= state.token1@);
    assert(vault0 =~= reserve_vault_seeds(pair_key, state.token0));
    assert(vault1 =~= reserve_vault_seeds(pair_key, state.token1));
    assert(futarchy =~= futarchy_authority_seeds());
    assert(event =~= event_authority_seeds());
    lemma_found_for(derived.reserve_vault0, vault0);
    lemma_found_for(derived.reserve_vault1, vault1);
    lemma_found_for(derived.futarchy_authority, futarchy);
    lemma_found_for(derived.event_authority, event);
}

/// An address found is told by its bytes, whatever the bump.
proof fn lemma_found_for(address: Pubkey, seeds: Seq<Seq<u8>>)
    ensures
        found_for(address, seeds) <==> crate::program_address::is_address(address, seeds),
{
    if let Some((bytes, bump)) = program_address(seeds, OMNIPAIR_PROGRAM_ID@) {
        if bytes == address@ {
            assert(program_address(seeds, OMNIPAIR_PROGRAM_ID@) == Some((address.bytes@, bump)));
        }
    }
}

/// A vault rests on the address of the pool and on its own mint alone: wherever a mint stands, and
/// whatever else is in the state, its vault is the same.
pub proof fn law_vault_rests_on_pool_and_mint(
    one: DerivedAccounts,
    other: DerivedAccounts,
    pair_key: Pubkey,
    state: OmnipairPair,
    other_state: OmnipairPair,
)
    requires
        one.belong_to(pair_key, state),
        other.belong_to(pair_key, other_state),
    ensures
        state.token0 == other_state.token0 ==> one.reserve_vault0 == other.reserve_vault0,
        state.token1 == other_state.token1 ==> one.reserve_vault1 == other.reserve_vault1,
        state.token0 == other_state.token1 ==> one.reserve_vault0 == other.reserve_vault1,
{
    lemma_pubkey_ext(one.reserve_vault0, other.reserve_vault0);
    lemma_pubkey_ext(one.reserve_vault1, other.reserve_vault1);
    lemma_pubkey_ext(one.reserve_vault0, other.reserve_vault1);
}

/// The authorities are the program's: all pools share them.
pub proof fn law_authorities_are_shared(
    one: DerivedAccounts,
    other: DerivedAccounts,
    key: Pubkey,
    other_key: Pubkey,
    state: OmnipairPair,
    other_state: OmnipairPair,
)
    requires
        one.belong_to(key, state),
        other.belong_to(other_key, other_state),
    ensures
        one.futarchy_authority == other.futarchy_authority,
        one.event_authority == other.event_authority,
{
    lemma_pubkey_ext(one.futarchy_authority, other.futarchy_authority);
    lemma_pubkey_ext(one.event_authority, other.event_authority);
}

/// A client that is read from an account has the addresses that the search finds for the address of
/// that account and for the mints that stand in its data.
pub proof fn law_client_has_the_addresses_of_its_account(
    client: OmnipairAmmClient,
    key: Pubkey,
    data: Seq<u8>,
    vault0: Seq<Seq<u8>>,
    vault1: Seq<Seq<u8>>,
    futarchy: Seq<Seq<u8>>,
    event: Seq<Seq<u8>>,
)
    requires
        client.read_from(key, data),
        vault0.len() == 3,
        spells(vault0[0], "reserve_vault"@),
        is_key(vault0[1], key.bytes),
        vault0[2] == data.subrange(8, 40),
        vault1.len() == 3,
        spells(vault1[0], "reserve_vault"@),
        is_key(vault1[1], key.bytes),
        vault1[2] == data.subrange(40, 72),
        futarchy.len() == 1,
        spells(futarchy[0], "futarchy_authority"@),
        event.len() == 1,
        spells(event[0], "__event_authority"@),
    ensures
        found_for(client.derived.reserve_vault0, vault0),
        found_for(client.derived.reserve_vault1, vault1),
        found_for(client.derived.futarchy_authority, futarchy),
        found_for(client.derived.event_authority, event),
{
    crate::account_laws::law_setup_stands_first(data, client.state);
    assert forall|i: int| 0 <= i < 32 implies #[trigger] vault0[2][i]
        == client.state.token0.bytes[i] by {
        assert(data[8 + i] == client.state.token0.bytes[i]);
    }
    assert forall|i: int| 0 <= i < 32 implies #[trigger] vault1[2][i]
        == client.state.token1.bytes[i] by {
        assert(data[40 + i] == client.state.token1.bytes[i]);
    }
    law_addresses_come_from_the_seeds(
        client.derived,
        key,
        client.state,
        vault0,
        vault1,
        futarchy,
        event,
    );
}

} // verus!
