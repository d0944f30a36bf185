//! Accounts, states read from them, and the accounts of a swap.

use omnipair_amm_sdk::program_address::{
    EVENT_AUTHORITY_SEED, FUTARCHY_AUTHORITY_SEED_PREFIX, RESERVE_VAULT_SEED_PREFIX,
};
use omnipair_amm_sdk::{
    deserialize_pair, AccountError, AccountMap, AccountMeta, Decimal, DerivedAccounts,
    KeyedAccount, OmnipairAmmClient, OmnipairError, OmnipairPair, Pubkey, Quote, QuoteParams, Swap,
    SwapMode, SwapParams, OMNIPAIR_PROGRAM_ID, SPL_TOKEN_PROGRAM_ID, TOKEN_2022_PROGRAM_ID,
};

type AnchorPubkey = anchor_lang::prelude::Pubkey;

fn key(tag: u8) -> Pubkey {
    Pubkey { bytes: [tag; 32] }
}

/// The data of an account, field by field.
fn account_data(fixed_cf_bps: &[u8], reserve1: u64, reduce_only: u8) -> Vec<u8> {
    let mut data = vec![0xaa; 8];
    for tag in 1..5u8 {
        data.extend_from_slice(&[tag; 32]);
    }
    data.extend_from_slice(&30u16.to_le_bytes());
    data.extend_from_slice(&600u64.to_le_bytes());
    data.extend_from_slice(fixed_cf_bps);
    for value in [1_000_000_000, reserve1, 900_000_000, 800_000_000u64] {
        data.extend_from_slice(&value.to_le_bytes());
    }
    // Price averages, last update, rates and debts.
    for value in 21..30u64 {
        data.extend_from_slice(&(value << 40).to_le_bytes());
    }
    for value in [1u128 << 100, u128::MAX] {
        data.extend_from_slice(&value.to_le_bytes());
    }
    for value in [41u64, 42, u64::MAX] {
        data.extend_from_slice(&value.to_le_bytes());
    }
    data.extend_from_slice(&[9, 6]);
    data.extend_from_slice(&[0x5c; 32]);
    data.extend_from_slice(&[1, 254, 11, 12, 13, 14, reduce_only]);
    data
}

fn plain_data() -> Vec<u8> {
    account_data(&[0], 1_000_000_000, 0)
}

fn client() -> OmnipairAmmClient {
    let account = KeyedAccount { key: key(7), data: plain_data() };
    OmnipairAmmClient::try_from_keyed_account(&account).unwrap().unwrap()
}

fn request(amount: u64, input_mint: Pubkey, swap_mode: SwapMode) -> QuoteParams {
    QuoteParams { amount, input_mint, output_mint: key(2), swap_mode }
}

fn swap_of(source_mint: Pubkey) -> SwapParams {
    SwapParams {
        source_mint,
        destination_mint: key(2),
        source_token_account: key(61),
        destination_token_account: key(62),
        token_transfer_authority: key(63),
    }
}

fn found(seeds: &[&[u8]]) -> Pubkey {
    let program = AnchorPubkey::from_str_const("omnixgS8fnqHfCcTGKWj6JtKjzpJZ1Y5y9pyFkQDkYE");
    let (address, _) = AnchorPubkey::find_program_address(seeds, &program);
    Pubkey { bytes: address.to_bytes() }
}

#[test]
fn program_ids_decode_from_base58() {
    let decode = |text: &'static str| AnchorPubkey::from_str_const(text).to_bytes();
    assert_eq!(OMNIPAIR_PROGRAM_ID, decode("omnixgS8fnqHfCcTGKWj6JtKjzpJZ1Y5y9pyFkQDkYE"));
    assert_eq!(SPL_TOKEN_PROGRAM_ID, decode("TokenkegQfeZyiNwAJbNbGKPFXCWuBvf9Ss623VQ5DA"));
    assert_eq!(TOKEN_2022_PROGRAM_ID, decode("TokenzQdBNbLqP5VEhdkAS6EPFLC1PHnBqCXEpPxuEb"));
}

#[test]
fn seeds_are_ascii() {
    assert_eq!(&RESERVE_VAULT_SEED_PREFIX, b"reserve_vault");
    assert_eq!(&FUTARCHY_AUTHORITY_SEED_PREFIX, b"futarchy_authority");
    assert_eq!(&EVENT_AUTHORITY_SEED, b"__event_authority");
}

#[test]
fn keys_compare_by_bytes() {
    let mut other = key(5);
    assert!(other == key(5));
    other.bytes[31] = 0;
    assert!(other != key(5));
    assert_eq!(Pubkey::default().bytes, [0; 32]);
}

#[test]
fn state_is_read_field_by_field() {
    let pair = deserialize_pair(&account_data(&[1, 0x34, 0x12], 77, 1)).unwrap();
    assert_eq!(pair.token0, key(1));
    assert_eq!(pair.token1, key(2));
    assert_eq!(pair.lp_mint, key(3));
    assert_eq!(pair.rate_model, key(4));
    assert_eq!(pair.swap_fee_bps, 30);
    assert_eq!(pair.half_life, 600);
    assert_eq!(pair.fixed_cf_bps, Some(0x1234));
    assert_eq!(pair.reserve0, 1_000_000_000);
    assert_eq!(pair.reserve1, 77);
    assert_eq!(pair.cash_reserve0, 900_000_000);
    assert_eq!(pair.cash_reserve1, 800_000_000);
    assert_eq!(pair.last_price0_ema.symmetric, 21 << 40);
    assert_eq!(pair.last_price0_ema.directional, 22 << 40);
    assert_eq!(pair.last_price1_ema.symmetric, 23 << 40);
    assert_eq!(pair.last_price1_ema.directional, 24 << 40);
    assert_eq!(pair.last_update, 25 << 40);
    assert_eq!(pair.last_rate0, 26 << 40);
    assert_eq!(pair.last_rate1, 27 << 40);
    assert_eq!(pair.total_debt0, 28 << 40);
    assert_eq!(pair.total_debt1, 29 << 40);
    assert_eq!(pair.total_debt0_shares, 1 << 100);
    assert_eq!(pair.total_debt1_shares, u128::MAX);
    assert_eq!(pair.total_supply, 41);
    assert_eq!(pair.total_collateral0, 42);
    assert_eq!(pair.total_collateral1, u64::MAX);
    assert_eq!(pair.token0_decimals, 9);
    assert_eq!(pair.token1_decimals, 6);
    assert_eq!(pair.params_hash, [0x5c; 32]);
    assert_eq!(pair.version, 1);
    assert_eq!(pair.bump, 254);
    assert_eq!(pair.vault_bumps.reserve0, 11);
    assert_eq!(pair.vault_bumps.reserve1, 12);
    assert_eq!(pair.vault_bumps.collateral0, 13);
    assert_eq!(pair.vault_bumps.collateral1, 14);
    assert!(pair.reduce_only);
}

#[test]
fn absent_option_takes_one_byte() {
    let pair = deserialize_pair(&plain_data()).unwrap();
    assert_eq!(pair.fixed_cf_bps, None);
    assert_eq!(pair.reserve0, 1_000_000_000);
    assert!(!pair.reduce_only);
    assert_eq!(plain_data().len(), 8 + 340);
}

fn fault(data: &[u8]) -> Option<AccountError> {
    deserialize_pair(data).err()
}

#[test]
fn discriminator_and_trailing_bytes_do_not_matter() {
    let mut data = plain_data();
    data[0] = 0;
    data.extend_from_slice(&[0xff; 99]);
    let pair = deserialize_pair(&data).unwrap();
    assert_eq!(pair.rate_model, key(4));
    assert!(!pair.reduce_only);
}

#[test]
fn short_data_is_refused() {
    let invalid = Some(AccountError::Omnipair(OmnipairError::InvalidAccountData));
    assert_eq!(fault(&[]), invalid);
    assert_eq!(fault(&[0; 7]), invalid);
    let data = plain_data();
    for len in 8..data.len() {
        assert_eq!(fault(&data[..len]), Some(AccountError::UnexpectedLength));
    }
    let data = account_data(&[1, 2, 3], 5, 1);
    for len in 8..data.len() {
        assert_eq!(fault(&data[..len]), Some(AccountError::UnexpectedLength));
    }
}

#[test]
fn bad_tags_are_refused() {
    assert_eq!(
        fault(&account_data(&[2], 5, 9)),
        Some(AccountError::InvalidOption(2))
    );
    assert_eq!(
        fault(&account_data(&[0], 5, 9)),
        Some(AccountError::InvalidBool(9))
    );
    // The tag is looked at before the rest is missed.
    let data = account_data(&[255], 5, 0);
    assert_eq!(fault(&data[..147]), Some(AccountError::InvalidOption(255)));
    assert_eq!(fault(&data[..146]), Some(AccountError::UnexpectedLength));
}

#[test]
fn account_map_keeps_the_last() {
    let mut map = AccountMap::new();
    assert!(map.get(&key(1)).is_none());
    map.insert(key(1), vec![1]);
    map.insert(key(2), vec![2]);
    map.insert(key(1), vec![3]);
    assert_eq!(map.get(&key(1)), Some(&vec![3]));
    assert_eq!(map.get(&key(2)), Some(&vec![2]));
    assert!(map.get(&key(3)).is_none());
}

#[test]
fn client_is_read_from_its_account() {
    let client = client();
    assert_eq!(client.key(), key(7));
    assert_eq!(client.label(), "Omnipair");
    assert_eq!(client.program_id().bytes, OMNIPAIR_PROGRAM_ID);
    assert_eq!(client.get_reserve_mints(), vec![key(1), key(2)]);
    assert_eq!(client.get_accounts_to_update(), vec![key(7)]);
    let broken = KeyedAccount { key: key(7), data: vec![1, 2, 3] };
    assert!(matches!(
        OmnipairAmmClient::try_from_keyed_account(&broken),
        Some(Err(AccountError::Omnipair(OmnipairError::InvalidAccountData)))
    ));
}

#[test]
fn derived_accounts_are_program_addresses() {
    let state: OmnipairPair = deserialize_pair(&plain_data()).unwrap();
    assert!(DerivedAccounts::can_compute(&key(7), &state));
    let derived = DerivedAccounts::compute(&key(7), &state);
    assert_eq!(derived.reserve_vault0, found(&[b"reserve_vault", &[7; 32], &[1; 32]]));
    assert_eq!(derived.reserve_vault1, found(&[b"reserve_vault", &[7; 32], &[2; 32]]));
    assert_eq!(derived.futarchy_authority, found(&[b"futarchy_authority"]));
    assert_eq!(derived.event_authority, found(&[b"__event_authority"]));
}

#[test]
fn update_reads_the_state_anew() {
    let mut client = client();
    let mut data = account_data(&[0], 5, 0);
    // Another token 1.
    data[40] = 200;
    let mut map = AccountMap::new();
    map.insert(key(9), vec![]);
    map.insert(key(7), data.clone());
    assert_eq!(client.try_update(&map), Some(Ok(())));
    assert_eq!(client.pair_key, key(7));
    assert_eq!(client.state.reserve1, 5);
    let mut mint = [2; 32];
    mint[0] = 200;
    assert_eq!(client.state.token1.bytes, mint);
    assert_eq!(
        client.derived.reserve_vault1,
        found(&[b"reserve_vault", &[7; 32], &mint])
    );
    // Reading from scratch gives the same client.
    let account = KeyedAccount { key: key(7), data };
    let fresh = OmnipairAmmClient::try_from_keyed_account(&account).unwrap().unwrap();
    assert_eq!(format!("{:?}", fresh), format!("{:?}", client));
}

#[test]
fn refused_update_changes_nothing() {
    let mut client = client();
    let before = format!("{:?}", client);
    let mut map = AccountMap::new();
    map.insert(key(8), plain_data());
    assert_eq!(
        client.try_update(&map),
        Some(Err(AccountError::PairAccountNotFound))
    );
    map.insert(key(7), account_data(&[0], 5, 2));
    assert_eq!(
        client.try_update(&map),
        Some(Err(AccountError::InvalidBool(2)))
    );
    assert_eq!(format!("{:?}", client), before);
}

#[test]
fn quote_reports_the_swap() {
    assert_eq!(
        client().quote(&request(1_000_000, key(1), SwapMode::ExactIn)),
        Ok(Quote {
            in_amount: 1_000_000,
            out_amount: 996_006,
            fee_amount: 3_000,
            fee_mint: key(1),
            fee_pct: Decimal { mantissa: 30, scale: 4 },
        })
    );
}

#[test]
fn quote_refuses_what_the_pool_refuses() {
    assert_eq!(
        client().quote(&request(1, key(3), SwapMode::ExactIn)),
        Err(OmnipairError::InvalidQuoteParams)
    );
}

#[test]
fn exact_out_is_refused() {
    assert_eq!(
        client().quote(&request(1_000_000, key(1), SwapMode::ExactOut)),
        Err(OmnipairError::ExactOutNotSupported)
    );
}

#[test]
fn decimals_keep_number_and_scale() {
    assert_eq!(Decimal::new(-5, 28), Decimal { mantissa: -5, scale: 28 });
    assert_eq!(Decimal::new(65_535, 4), Decimal { mantissa: 65_535, scale: 4 });
    assert_eq!(
        Decimal::new(i64::MIN, 0),
        Decimal { mantissa: i64::MIN as i128, scale: 0 }
    );
}

fn metas(source_mint: Pubkey) -> Vec<AccountMeta> {
    let swap = client().get_swap_and_account_metas(&swap_of(source_mint)).unwrap();
    assert_eq!(swap.swap, Swap::TokenSwap);
    swap.account_metas
}

#[test]
fn swap_names_its_accounts_in_order() {
    let vault0 = found(&[b"reserve_vault", &[7; 32], &[1; 32]]);
    let vault1 = found(&[b"reserve_vault", &[7; 32], &[2; 32]]);
    let expected = vec![
        AccountMeta::new(key(7), false),
        AccountMeta::new(key(4), false),
        AccountMeta::new_readonly(found(&[b"futarchy_authority"]), false),
        AccountMeta::new(vault0, false),
        AccountMeta::new(vault1, false),
        AccountMeta::new(key(61), false),
        AccountMeta::new(key(62), false),
        AccountMeta::new_readonly(key(1), false),
        AccountMeta::new_readonly(key(2), false),
        AccountMeta::new(key(63), true),
        AccountMeta::new_readonly(Pubkey { bytes: SPL_TOKEN_PROGRAM_ID }, false),
        AccountMeta::new_readonly(Pubkey { bytes: TOKEN_2022_PROGRAM_ID }, false),
        AccountMeta::new_readonly(found(&[b"__event_authority"]), false),
        AccountMeta::new_readonly(Pubkey { bytes: OMNIPAIR_PROGRAM_ID }, false),
    ];
    assert_eq!(metas(key(1)), expected);
}

#[test]
fn other_direction_exchanges_vaults_and_mints() {
    let there = metas(key(1));
    for mint in [key(2), key(99)] {
        let back = metas(mint);
        assert_eq!(back[3], there[4]);
        assert_eq!(back[4], there[3]);
        assert_eq!(back[7], there[8]);
        assert_eq!(back[8], there[7]);
        for i in [0, 1, 2, 5, 6, 9, 10, 11, 12, 13] {
            assert_eq!(back[i], there[i]);
        }
    }
}

#[test]
fn announced_number_of_accounts_and_one_signer() {
    let metas = metas(key(1));
    assert_eq!(metas.len(), client().get_accounts_len());
    assert_eq!(metas.len(), 14);
    let signers: Vec<&AccountMeta> = metas.iter().filter(|meta| meta.is_signer).collect();
    assert_eq!(signers, vec![&AccountMeta::new(key(63), true)]);
}

#[test]
fn copies_hold_the_same() {
    let data = account_data(&[1, 0x34, 0x12], 77, 1);
    let account = KeyedAccount { key: key(7), data };
    let copy = account.clone();
    assert_eq!(copy.key, account.key);
    assert_eq!(copy.data, account.data);

    let amm = OmnipairAmmClient::try_from_keyed_account(&copy).unwrap().unwrap();
    assert_eq!(format!("{:?}", amm.clone()), format!("{:?}", amm));

    let swap = amm.get_swap_and_account_metas(&swap_of(key(1))).unwrap();
    let copy = swap.clone();
    assert_eq!(copy.swap, swap.swap);
    assert_eq!(copy.account_metas, swap.account_metas);
}

#[test]
fn a_copy_is_updated_on_its_own() {
    let amm = client();
    let mut copy = amm.clone();
    let mut map = AccountMap::new();
    map.insert(key(7), account_data(&[0], 5, 0));
    assert_eq!(copy.try_update(&map), Some(Ok(())));
    assert_eq!(copy.state.reserve1, 5);
    assert_eq!(amm.state.reserve1, 1_000_000_000);
}
