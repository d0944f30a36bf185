//! What the data of an account says: where each field of a state stands in it, and what is wrong
//! with data that holds none.

use crate::client::{addresses_exist, update_fault, OmnipairAmmClient};
use crate::error::{AccountError, OmnipairError};
use crate::pair::{
    account_fault, account_holds, lemma_account_holds_one_state, lemma_stored_state_is_read_back,
    OmnipairPair,
};
use crate::program_address::DerivedAccounts;
use crate::pubkey::Pubkey;
use crate::wire::{bool_bytes, le_bytes, lemma_le_bytes_len, option_u16_bytes};
use vstd::prelude::*;

verus! {

/// The two bytes at `at` as a number, least significant byte first.
pub open spec fn u16_at(bytes: Seq<u8>, at: int) -> int {
    bytes[at] + 0x100 * bytes[at + 1]
}

/// The eight bytes at `at` as a number, least significant byte first.
pub open spec fn u64_at(bytes: Seq<u8>, at: int) -> int {
    bytes[at]
        + 0x100 * bytes[at + 1]
        + 0x10000 * bytes[at + 2]
        + 0x1000000 * bytes[at + 3]
        + 0x100000000 * bytes[at + 4]
        + 0x10000000000 * bytes[at + 5]
        + 0x1000000000000 * bytes[at + 6]
        + 0x100000000000000 * bytes[at + 7]
}

/// The sixteen bytes at `at` as a number, least significant byte first.
pub open spec fn u128_at(bytes: Seq<u8>, at: int) -> int {
    u64_at(bytes, at) + 0x1_0000_0000_0000_0000 * u64_at(bytes, at + 8)
}

/// These bytes stand at `at`, one by one.
pub open spec fn bytes_at(bytes: Seq<u8>, at: int, part: [u8; 32]) -> bool {
    forall|i: int| 0 <= i < 32 ==> bytes[at + i] == #[trigger] part[i]
}

/// Where the reserves stand: behind the optional number, which takes one byte or three.
pub open spec fn reserves_at(data: Seq<u8>) -> int {
    if data[146] == 0 {
        147
    } else {
        149
    }
}

/// Two bytes that spell a number out give it back.
proof fn lemma_u16_at(bytes: Seq<u8>, at: int, value: u16)
    requires
        0 <= at,
        at + 2 <= bytes.len(),
        bytes.subrange(at, at + 2) == le_bytes(value as nat, 2),
    ensures
        u16_at(bytes, at) == value,
{
    reveal_with_fuel(le_bytes, 3);
    let part = bytes.subrange(at, at + 2);
    assert(bytes[at] == part[0]);
    assert(bytes[at + 1] == part[1]);
}

/// The low eight bytes of a number, and what they leave.
proof fn lemma_u64_part(bytes: Seq<u8>, at: int, value: nat, size: nat)
    requires
        0 <= at,
        size >= 8,
        at + size <= bytes.len(),
        bytes.subrange(at, at + size) == le_bytes(value, size),
    ensures
        u64_at(bytes, at) == value % 0x1_0000_0000_0000_0000,
        bytes.subrange(at + 8, at + size) == le_bytes(
            value / 0x1_0000_0000_0000_0000,
            (size - 8) as nat,
        ),
{
    reveal_with_fuel(le_bytes, 9);
    broadcast use lemma_le_bytes_len;

    let part = bytes.subrange(at, at + size);
    assert(bytes[at] == part[0]);
    assert(bytes[at + 1] == part[1]);
    assert(bytes[at + 2] == part[2]);
    assert(bytes[at + 3] == part[3]);
    assert(bytes[at + 4] == part[4]);
    assert(bytes[at + 5] == part[5]);
    assert(bytes[at + 6] == part[6]);
    assert(bytes[at + 7] == part[7]);
    assert(bytes.subrange(at + 8, at + size) =~= part.subrange(8, size as int));
    assert(part.subrange(8, size as int) =~= le_bytes(
        value / 0x1_0000_0000_0000_0000,
        (size - 8) as nat,
    ));
}

/// Eight bytes that spell a number out give it back.
proof fn lemma_u64_at(bytes: Seq<u8>, at: int, value: u64)
    requires
        0 <= at,
        at + 8 <= bytes.len(),
        bytes.subrange(at, at + 8) == le_bytes(value as nat, 8),
    ensures
        u64_at(bytes, at) == value,
{
    lemma_u64_part(bytes, at, value as nat, 8);
}

/// Sixteen bytes that spell a number out give it back.
proof fn lemma_u128_at(bytes: Seq<u8>, at: int, value: u128)
    requires
        0 <= at,
        at + 16 <= bytes.len(),
        bytes.subrange(at, at + 16) == le_bytes(value as nat, 16),
    ensures
        u128_at(bytes, at) == value,
{
    lemma_u64_part(bytes, at, value as nat, 16);
    lemma_u64_part(bytes, at + 8, value as nat / 0x1_0000_0000_0000_0000, 8);
}

/// A part of a section stands in the whole where the section does.
proof fn lemma_part_in_place(whole: Seq<u8>, at: int, section: Seq<u8>, from: int, to: int)
    requires
        0 <= at,
        at + section.len() <= whole.len(),
        whole.subrange(at, at + section.len()) == section,
        0 <= from <= to <= section.len(),
    ensures
        whole.subrange(at + from, at + to) == section.subrange(from, to),
{
    assert(whole.subrange(at + from, at + to) =~= whole.subrange(at, at + section.len()).subrange(
        from,
        to,
    ));
}

/// Bytes that make up a part of the whole stand there one by one.
proof fn lemma_bytes_at(bytes: Seq<u8>, at: int, part: [u8; 32])
    requires
        0 <= at,
        at + 32 <= bytes.len(),
        bytes.subrange(at, at + 32) == part@,
    ensures
        bytes_at(bytes, at, part),
{
    assert forall|i: int| 0 <= i < 32 implies bytes[at + i] == #[trigger] part[i] by {
        assert(bytes.subrange(at, at + 32)[i] == part@[i]);
    }
}

/// A section of a state stands in the data behind the discriminator.
proof fn lemma_section_in_data(data: Seq<u8>, at: int, section: Seq<u8>)
    requires
        0 <= at,
        8 + at + section.len() <= data.len(),
        data.skip(8).subrange(at, at + section.len()) == section,
    ensures
        data.subrange(8 + at, 8 + at + section.len()) == section,
{
    assert(data.subrange(8 + at, 8 + at + section.len()) =~= data.skip(8).subrange(
        at,
        at + section.len(),
    ));
}

/// Where the tokens, the linked accounts, the fee rate and the half life stand.
pub proof fn law_setup_stands_first(data: Seq<u8>, pair: OmnipairPair)
    requires
        account_holds(data, pair),
    ensures
        data.len() > 146,
        bytes_at(data, 8, pair.token0.bytes),
        bytes_at(data, 40, pair.token1.bytes),
        bytes_at(data, 72, pair.lp_mint.bytes),
        bytes_at(data, 104, pair.rate_model.bytes),
        u16_at(data, 136) == pair.swap_fee_bps,
        u64_at(data, 138) == pair.half_life,
{
    broadcast use lemma_le_bytes_len;

    pair.lemma_sections(data.skip(8));
    let setup = pair.setup_layout();
    lemma_section_in_data(data, 0, setup);
    assert(setup.subrange(0, 32) =~= pair.token0@);
    lemma_part_in_place(data, 8, setup, 0, 32);
    lemma_bytes_at(data, 8, pair.token0.bytes);
    assert(setup.subrange(32, 64) =~= pair.token1@);
    lemma_part_in_place(data, 8, setup, 32, 64);
    lemma_bytes_at(data, 40, pair.token1.bytes);
    assert(setup.subrange(64, 96) =~= pair.lp_mint@);
    lemma_part_in_place(data, 8, setup, 64, 96);
    lemma_bytes_at(data, 72, pair.lp_mint.bytes);
    assert(setup.subrange(96, 128) =~= pair.rate_model@);
    lemma_part_in_place(data, 8, setup, 96, 128);
    lemma_bytes_at(data, 104, pair.rate_model.bytes);
    assert(setup.subrange(128, 130) =~= le_bytes(pair.swap_fee_bps as nat, 2));
    lemma_part_in_place(data, 8, setup, 128, 130);
    lemma_u16_at(data, 136, pair.swap_fee_bps);
    assert(setup.subrange(130, 138) =~= le_bytes(pair.half_life as nat, 8));
    lemma_part_in_place(data, 8, setup, 130, 138);
    lemma_u64_at(data, 138, pair.half_life);
}

/// Where the optional number stands: a tag, and behind the tag one its two bytes.
pub proof fn law_option_stands_tagged(data: Seq<u8>, pair: OmnipairPair)
    requires
        account_holds(data, pair),
    ensures
        data.len() > 148,
        pair.fixed_cf_bps is None <==> data[146] == 0,
        pair.fixed_cf_bps is Some <==> data[146] == 1,
        pair.fixed_cf_bps matches Some(number) ==> u16_at(data, 147) == number,
{
    broadcast use lemma_le_bytes_len;

    pair.lemma_sections(data.skip(8));
    let option = option_u16_bytes(pair.fixed_cf_bps);
    lemma_section_in_data(data, 138, option);
    if let Some(number) = pair.fixed_cf_bps {
        assert(option.subrange(1, 3) =~= le_bytes(number as nat, 2));
        lemma_part_in_place(data, 146, option, 1, 3);
        lemma_u16_at(data, 147, number);
    }
}

/// Where the reserves, the cash, the price averages and the rates stand.
pub proof fn law_market_stands_behind(data: Seq<u8>, pair: OmnipairPair)
    requires
        account_holds(data, pair),
    ensures
        data.len() >= reserves_at(data) + 201,
        u64_at(data, reserves_at(data)) == pair.reserve0,
        u64_at(data, reserves_at(data) + 8) == pair.reserve1,
        u64_at(data, reserves_at(data) + 16) == pair.cash_reserve0,
        u64_at(data, reserves_at(data) + 24) == pair.cash_reserve1,
        u64_at(data, reserves_at(data) + 32) == pair.last_price0_ema.symmetric,
        u64_at(data, reserves_at(data) + 40) == pair.last_price0_ema.directional,
        u64_at(data, reserves_at(data) + 48) == pair.last_price1_ema.symmetric,
        u64_at(data, reserves_at(data) + 56) == pair.last_price1_ema.directional,
        u64_at(data, reserves_at(data) + 64) == pair.last_update,
        u64_at(data, reserves_at(data) + 72) == pair.last_rate0,
        u64_at(data, reserves_at(data) + 80) == pair.last_rate1,
{
    broadcast use lemma_le_bytes_len;

    law_option_stands_tagged(data, pair);
    pair.lemma_sections(data.skip(8));
    let market = pair.market_layout();
    let at = reserves_at(data);
    lemma_section_in_data(data, at - 8, market);
    assert(market.subrange(0, 8) =~= le_bytes(pair.reserve0 as nat, 8));
    lemma_part_in_place(data, at, market, 0, 8);
    lemma_u64_at(data, at, pair.reserve0);
    assert(market.subrange(8, 16) =~= le_bytes(pair.reserve1 as nat, 8));
    lemma_part_in_place(data, at, market, 8, 16);
    lemma_u64_at(data, at + 8, pair.reserve1);
    assert(market.subrange(16, 24) =~= le_bytes(pair.cash_reserve0 as nat, 8));
    lemma_part_in_place(data, at, market, 16, 24);
    lemma_u64_at(data, at + 16, pair.cash_reserve0);
    assert(market.subrange(24, 32) =~= le_bytes(pair.cash_reserve1 as nat, 8));
    lemma_part_in_place(data, at, market, 24, 32);
    lemma_u64_at(data, at + 24, pair.cash_reserve1);
    assert(market.subrange(32, 40) =~= le_bytes(pair.last_price0_ema.symmetric as nat, 8));
    lemma_part_in_place(data, at, market, 32, 40);
    lemma_u64_at(data, at + 32, pair.last_price0_ema.symmetric);
    assert(market.subrange(40, 48) =~= le_bytes(pair.last_price0_ema.directional as nat, 8));
    lemma_part_in_place(data, at, market, 40, 48);
    lemma_u64_at(data, at + 40, pair.last_price0_ema.directional);
    assert(market.subrange(48, 56) =~= le_bytes(pair.last_price1_ema.symmetric as nat, 8));
    lemma_part_in_place(data, at, market, 48, 56);
    lemma_u64_at(data, at + 48, pair.last_price1_ema.symmetric);
    assert(market.subrange(56, 64) =~= le_bytes(pair.last_price1_ema.directional as nat, 8));
    lemma_part_in_place(data, at, market, 56, 64);
    lemma_u64_at(data, at + 56, pair.last_price1_ema.directional);
    assert(market.subrange(64, 72) =~= le_bytes(pair.last_update as nat, 8));
    lemma_part_in_place(data, at, market, 64, 72);
    lemma_u64_at(data, at + 64, pair.last_update);
    assert(market.subrange(72, 80) =~= le_bytes(pair.last_rate0 as nat, 8));
    lemma_part_in_place(data, at, market, 72, 80);
    lemma_u64_at(data, at + 72, pair.last_rate0);
    assert(market.subrange(80, 88) =~= le_bytes(pair.last_rate1 as nat, 8));
    lemma_part_in_place(data, at, market, 80, 88);
    lemma_u64_at(data, at + 80, pair.last_rate1);
}

/// Where the debts, the supply and the collateral stand.
pub proof fn law_totals_stand_behind(data: Seq<u8>, pair: OmnipairPair)
    requires
        account_holds(data, pair),
    ensures
        u64_at(data, reserves_at(data) + 88) == pair.total_debt0,
        u64_at(data, reserves_at(data) + 96) == pair.total_debt1,
        u128_at(data, reserves_at(data) + 104) == pair.total_debt0_shares,
        u128_at(data, reserves_at(data) + 120) == pair.total_debt1_shares,
        u64_at(data, reserves_at(data) + 136) == pair.total_supply,
        u64_at(data, reserves_at(data) + 144) == pair.total_collateral0,
        u64_at(data, reserves_at(data) + 152) == pair.total_collateral1,
{
    broadcast use lemma_le_bytes_len;

    law_option_stands_tagged(data, pair);
    pair.lemma_sections(data.skip(8));
    let totals = pair.totals_layout();
    let at = reserves_at(data) + 88;
    lemma_section_in_data(data, at - 8, totals);
    assert(totals.subrange(0, 8) =~= le_bytes(pair.total_debt0 as nat, 8));
    lemma_part_in_place(data, at, totals, 0, 8);
    lemma_u64_at(data, at, pair.total_debt0);
    assert(totals.subrange(8, 16) =~= le_bytes(pair.total_debt1 as nat, 8));
    lemma_part_in_place(data, at, totals, 8, 16);
    lemma_u64_at(data, at + 8, pair.total_debt1);
    assert(totals.subrange(16, 32) =~= le_bytes(pair.total_debt0_shares as nat, 16));
    lemma_part_in_place(data, at, totals, 16, 32);
    lemma_u128_at(data, at + 16, pair.total_debt0_shares);
    assert(totals.subrange(32, 48) =~= le_bytes(pair.total_debt1_shares as nat, 16));
    lemma_part_in_place(data, at, totals, 32, 48);
    lemma_u128_at(data, at + 32, pair.total_debt1_shares);
    assert(totals.subrange(48, 56) =~= le_bytes(pair.total_supply as nat, 8));
    lemma_part_in_place(data, at, totals, 48, 56);
    lemma_u64_at(data, at + 48, pair.total_supply);
    assert(totals.subrange(56, 64) =~= le_bytes(pair.total_collateral0 as nat, 8));
    lemma_part_in_place(data, at, totals, 56, 64);
    lemma_u64_at(data, at + 56, pair.total_collateral0);
    assert(totals.subrange(64, 72) =~= le_bytes(pair.total_collateral1 as nat, 8));
    lemma_part_in_place(data, at, totals, 64, 72);
    lemma_u64_at(data, at + 64, pair.total_collateral1);
}

/// Where the decimals, the parameters' hash, the version, the bumps and the mode stand.
pub proof fn law_details_stand_last(data: Seq<u8>, pair: OmnipairPair)
    requires
        account_holds(data, pair),
    ensures
        data[reserves_at(data) + 160] == pair.token0_decimals,
        data[reserves_at(data) + 161] == pair.token1_decimals,
        bytes_at(data, reserves_at(data) + 162, pair.params_hash),
        data[reserves_at(data) + 194] == pair.version,
        data[reserves_at(data) + 195] == pair.bump,
        data[reserves_at(data) + 196] == pair.vault_bumps.reserve0,
        data[reserves_at(data) + 197] == pair.vault_bumps.reserve1,
        data[reserves_at(data) + 198] == pair.vault_bumps.collateral0,
        data[reserves_at(data) + 199] == pair.vault_bumps.collateral1,
        data[reserves_at(data) + 200] <= 1,
        pair.reduce_only <==> data[reserves_at(data) + 200] == 1,
{
    broadcast use lemma_le_bytes_len;

    law_option_stands_tagged(data, pair);
    pair.lemma_sections(data.skip(8));
    let details = pair.details_layout();
    let at = reserves_at(data) + 160;
    lemma_section_in_data(data, at - 8, details);
    assert forall|i: int| 0 <= i < 41 implies data[at + i] == #[trigger] details[i] by {
        assert(data.subrange(at, at + 41)[i] == details[i]);
    }
    assert(details[0] == pair.token0_decimals);
    assert(details[1] == pair.token1_decimals);
    assert(details.subrange(2, 34) =~= pair.params_hash@);
    lemma_part_in_place(data, at, details, 2, 34);
    lemma_bytes_at(data, at + 2, pair.params_hash);
    assert(details[34] == pair.version);
    assert(details[35] == pair.bump);
    assert(details[36] == pair.vault_bumps.reserve0);
    assert(details[37] == pair.vault_bumps.reserve1);
    assert(details[38] == pair.vault_bumps.collateral0);
    assert(details[39] == pair.vault_bumps.collateral1);
    assert(details[40] == bool_bytes(pair.reduce_only)[0]);
}

/// What is wrong with the data of an account, by its bytes. Data shorter than the discriminator is
/// no account of the program. A state takes 340 bytes, or 342 where the optional number is there;
/// its tag is looked at before the rest is missed, and the mode, its last byte, comes last. A
/// `byte` that is no tag, or no truth value, is named.
pub proof fn law_fault_by_the_bytes(data: Seq<u8>, byte: u8)
    ensures
        account_fault(data) == Some(AccountError::Omnipair(OmnipairError::InvalidAccountData))
            <==> data.len() < 8,
        account_fault(data) == Some(AccountError::InvalidOption(byte)) <==> data.len() >= 147
            && data[146] == byte && byte > 1,
        account_fault(data) == Some(AccountError::InvalidBool(byte)) <==> byte > 1 && (data.len()
            >= 348 && data[146] == 0 && data[347] == byte || data.len() >= 350 && data[146] == 1
            && data[349] == byte),
        account_fault(data) == Some(AccountError::UnexpectedLength) <==> 8 <= data.len() < 147
            || 147 <= data.len() < 348 && data[146] == 0 || 147 <= data.len() < 350 && data[146]
            == 1,
        account_fault(data) is None <==> data.len() >= 348 && data[146] == 0 && data[347] <= 1
            || data.len() >= 350 && data[146] == 1 && data[349] <= 1,
{
}

/// What is cut off before the state ends is refused as too short, wherever it is cut behind the
/// discriminator.
pub proof fn law_cut_account_is_refused(discriminator: Seq<u8>, pair: OmnipairPair, len: int)
    requires
        discriminator.len() == 8,
        8 <= len < 8 + pair.layout().len(),
    ensures
        account_fault((discriminator + pair.layout()).take(len)) == Some(
            AccountError::UnexpectedLength,
        ),
{
    let data = discriminator + pair.layout();
    let cut = data.take(len);
    assert(data + Seq::<u8>::empty() =~= data);
    lemma_stored_state_is_read_back(discriminator, pair, Seq::empty());
    law_option_stands_tagged(data, pair);
    pair.lemma_sections(data.skip(8));
    if len >= 147 {
        assert(cut[146] == data[146]);
    }
}

/// The discriminator has no part in what an account says.
pub proof fn law_discriminator_is_passed_over(
    discriminator: Seq<u8>,
    other: Seq<u8>,
    rest: Seq<u8>,
    pair: OmnipairPair,
)
    requires
        discriminator.len() == 8,
        other.len() == 8,
    ensures
        account_fault(discriminator + rest) == account_fault(other + rest),
        account_holds(discriminator + rest, pair) <==> account_holds(other + rest, pair),
{
    assert((discriminator + rest).skip(8) =~= rest);
    assert((other + rest).skip(8) =~= rest);
}

/// Bytes behind a state have no part in what an account says.
pub proof fn law_trailing_bytes_are_passed_over(
    data: Seq<u8>,
    trailing: Seq<u8>,
    pair: OmnipairPair,
)
    requires
        account_holds(data, pair),
    ensures
        account_fault(data + trailing) is None,
        account_holds(data + trailing, pair),
{
    let whole = data.skip(8);
    let longer = (data + trailing).skip(8);
    assert(longer =~= whole + trailing);
    assert(pair.layout() =~= longer.subrange(0, pair.layout().len() as int)) by {
        assert(pair.layout() == whole.subrange(0, pair.layout().len() as int));
    }
    crate::pair::lemma_held_state_has_no_fault(data + trailing, pair);
}

/// A client that is read from an account has its address and exactly the state that was stored
/// there, field for field, whatever the discriminator is and whatever follows the state.
pub proof fn law_client_has_the_stored_state(
    client: OmnipairAmmClient,
    key: Pubkey,
    discriminator: Seq<u8>,
    pair: OmnipairPair,
    trailing: Seq<u8>,
)
    requires
        discriminator.len() == 8,
        client.read_from(key, discriminator + pair.layout() + trailing),
    ensures
        client.pair_key == key,
        client.state == pair,
{
    let data = discriminator + pair.layout() + trailing;
    lemma_stored_state_is_read_back(discriminator, pair, trailing);
    lemma_account_holds_one_state(data, client.state, pair);
}

/// Every field of a client's state is what the bytes of its account say.
pub proof fn law_client_shows_its_account(client: OmnipairAmmClient, key: Pubkey, data: Seq<u8>)
    requires
        client.read_from(key, data),
    ensures
        client.pair_key == key,
        bytes_at(data, 8, client.state.token0.bytes),
        bytes_at(data, 40, client.state.token1.bytes),
        bytes_at(data, 72, client.state.lp_mint.bytes),
        bytes_at(data, 104, client.state.rate_model.bytes),
        u16_at(data, 136) == client.state.swap_fee_bps,
        u64_at(data, 138) == client.state.half_life,
        client.state.fixed_cf_bps is None <==> data[146] == 0,
        client.state.fixed_cf_bps is Some <==> data[146] == 1,
        client.state.fixed_cf_bps matches Some(number) ==> u16_at(data, 147) == number,
        u64_at(data, reserves_at(data)) == client.state.reserve0,
        u64_at(data, reserves_at(data) + 8) == client.state.reserve1,
        u64_at(data, reserves_at(data) + 16) == client.state.cash_reserve0,
        u64_at(data, reserves_at(data) + 24) == client.state.cash_reserve1,
        u64_at(data, reserves_at(data) + 32) == client.state.last_price0_ema.symmetric,
        u64_at(data, reserves_at(data) + 40) == client.state.last_price0_ema.directional,
        u64_at(data, reserves_at(data) + 48) == client.state.last_price1_ema.symmetric,
        u64_at(data, reserves_at(data) + 56) == client.state.last_price1_ema.directional,
        u64_at(data, reserves_at(data) + 64) == client.state.last_update,
        u64_at(data, reserves_at(data) + 72) == client.state.last_rate0,
        u64_at(data, reserves_at(data) + 80) == client.state.last_rate1,
        u64_at(data, reserves_at(data) + 88) == client.state.total_debt0,
        u64_at(data, reserves_at(data) + 96) == client.state.total_debt1,
        u128_at(data, reserves_at(data) + 104) == client.state.total_debt0_shares,
        u128_at(data, reserves_at(data) + 120) == client.state.total_debt1_shares,
        u64_at(data, reserves_at(data) + 136) == client.state.total_supply,
        u64_at(data, reserves_at(data) + 144) == client.state.total_collateral0,
        u64_at(data, reserves_at(data) + 152) == client.state.total_collateral1,
        data[reserves_at(data) + 160] == client.state.token0_decimals,
        data[reserves_at(data) + 161] == client.state.token1_decimals,
        bytes_at(data, reserves_at(data) + 162, client.state.params_hash),
        data[reserves_at(data) + 194] == client.state.version,
        data[reserves_at(data) + 195] == client.state.bump,
        data[reserves_at(data) + 196] == client.state.vault_bumps.reserve0,
        data[reserves_at(data) + 197] == client.state.vault_bumps.reserve1,
        data[reserves_at(data) + 198] == client.state.vault_bumps.collateral0,
        data[reserves_at(data) + 199] == client.state.vault_bumps.collateral1,
        client.state.reduce_only <==> data[reserves_at(data) + 200] == 1,
{
    law_setup_stands_first(data, client.state);
    law_option_stands_tagged(data, client.state);
    law_market_stands_behind(data, client.state);
    law_totals_stand_behind(data, client.state);
    law_details_stand_last(data, client.state);
}

/// The addresses of the pool in an account exist exactly when they exist for the state that was
/// stored there. Data that holds no state asks for none.
pub proof fn law_addresses_of_the_stored_state(
    key: Pubkey,
    discriminator: Seq<u8>,
    pair: OmnipairPair,
    trailing: Seq<u8>,
    faulty: Seq<u8>,
)
    requires
        discriminator.len() == 8,
        account_fault(faulty) is Some,
    ensures
        addresses_exist(key, discriminator + pair.layout() + trailing)
            <==> DerivedAccounts::exist_for(key, pair),
        addresses_exist(key, faulty),
{
    lemma_stored_state_is_read_back(discriminator, pair, trailing);
    assert forall|state: OmnipairPair| #[trigger]
        account_holds(faulty, state) implies DerivedAccounts::exist_for(key, state) by {
        crate::pair::lemma_held_state_has_no_fault(faulty, state);
    }
}

/// An update looks at the account of the pool alone: it is refused when that account is missing or
/// faulty, and other accounts have no part in it.
pub proof fn law_update_looks_at_the_pool_alone(
    accounts: Map<Pubkey, Seq<u8>>,
    others: Map<Pubkey, Seq<u8>>,
    key: Pubkey,
    data: Seq<u8>,
)
    ensures
        !accounts.contains_key(key) ==> update_fault(accounts, key) == Some(
            AccountError::PairAccountNotFound,
        ),
        update_fault(accounts.insert(key, data), key) == account_fault(data),
        update_fault(accounts.insert(key, data), key) == update_fault(
            others.insert(key, data),
            key,
        ),
        account_fault(data) != Some(AccountError::PairAccountNotFound),
{
}

} // verus!
