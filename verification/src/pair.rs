//! The on-chain state of a pool.

use crate::error::{AccountError, OmnipairError};
use crate::pubkey::{lemma_pubkey_ext, Pubkey};
use crate::wire::{
    bool_bytes, le_bytes, lemma_u128_bytes_injective, lemma_u16_bytes_injective,
    lemma_u64_bytes_injective, option_u16_bytes, read_bool, read_bytes32, read_option_u16,
    read_pubkey, read_u128, read_u16, read_u64, read_u8,
};
use vstd::prelude::*;

verus! {

/// Bump seeds of a pool's vaults.
#[derive(Debug, Clone, Copy)]
pub struct VaultBumps {
    pub reserve0: u8,
    pub reserve1: u8,
    pub collateral0: u8,
    pub collateral1: u8,
}

/// The last exponential moving averages of a price.
#[derive(Debug, Clone, Copy)]
pub struct LastPriceEMA {
    pub symmetric: u64,
    pub directional: u64,
}

/// The account of a pool, as the Omnipair program stores it.
#[derive(Debug)]
pub struct OmnipairPair {
    pub token0: Pubkey,
    pub token1: Pubkey,
    pub lp_mint: Pubkey,
    pub rate_model: Pubkey,
    pub swap_fee_bps: u16,
    pub half_life: u64,
    pub fixed_cf_bps: Option<u16>,
    pub reserve0: u64,
    pub reserve1: u64,
    pub cash_reserve0: u64,
    pub cash_reserve1: u64,
    pub last_price0_ema: LastPriceEMA,
    pub last_price1_ema: LastPriceEMA,
    pub last_update: u64,
    pub last_rate0: u64,
    pub last_rate1: u64,
    pub total_debt0: u64,
    pub total_debt1: u64,
    pub total_debt0_shares: u128,
    pub total_debt1_shares: u128,
    pub total_supply: u64,
    pub total_collateral0: u64,
    pub total_collateral1: u64,
    pub token0_decimals: u8,
    pub token1_decimals: u8,
    pub params_hash: [u8; 32],
    pub version: u8,
    pub bump: u8,
    pub vault_bumps: VaultBumps,
    pub reduce_only: bool,
}

impl Clone for OmnipairPair {
    /// The same state.
    fn clone(&self) -> (copy: Self)
        ensures
            copy == *self,
    {
        OmnipairPair { ..*self }
    }
}

impl Default for VaultBumps {
    /// All bumps zero.
    fn default() -> (bumps: Self)
        ensures
            bumps == (VaultBumps { reserve0: 0, reserve1: 0, collateral0: 0, collateral1: 0 }),
    {
        VaultBumps { reserve0: 0, reserve1: 0, collateral0: 0, collateral1: 0 }
    }
}

impl Default for LastPriceEMA {
    /// Both averages zero.
    fn default() -> (ema: Self)
        ensures
            ema == (LastPriceEMA { symmetric: 0, directional: 0 }),
    {
        LastPriceEMA { symmetric: 0, directional: 0 }
    }
}

impl VaultBumps {
    /// The bumps as stored.
    pub open spec fn layout(self) -> Seq<u8> {
        seq![self.reserve0, self.reserve1, self.collateral0, self.collateral1]
    }

    /// Takes the bumps off the front of `buf`.
    pub(crate) fn deserialize(buf: &mut &[u8]) -> (result: Result<Self, AccountError>)
        ensures
            result is Ok <==> old(buf)@.len() >= 4,
            result matches Err(e) ==> e == AccountError::UnexpectedLength,
            result matches Ok(bumps) ==> old(buf)@ == bumps.layout() + final(buf)@,
    {
        let reserve0: u8 = read_u8(buf)?;
        let reserve1: u8 = read_u8(buf)?;
        let collateral0: u8 = read_u8(buf)?;
        let collateral1: u8 = read_u8(buf)?;
        let bumps = VaultBumps { reserve0, reserve1, collateral0, collateral1 };
        assert(old(buf)@ =~= bumps.layout() + buf@);
        Ok(bumps)
    }
}

impl LastPriceEMA {
    /// The averages as stored.
    pub open spec fn layout(self) -> Seq<u8> {
        le_bytes(self.symmetric as nat, 8) + le_bytes(self.directional as nat, 8)
    }

    /// Takes the averages off the front of `buf`.
    pub(crate) fn deserialize(buf: &mut &[u8]) -> (result: Result<Self, AccountError>)
        ensures
            result is Ok <==> old(buf)@.len() >= 16,
            result matches Err(e) ==> e == AccountError::UnexpectedLength,
            result matches Ok(ema) ==> old(buf)@ == ema.layout() + final(buf)@,
    {
        broadcast use crate::wire::lemma_le_bytes_len;

        let symmetric: u64 = read_u64(buf)?;
        let directional: u64 = read_u64(buf)?;
        let ema = LastPriceEMA { symmetric, directional };
        assert(old(buf)@ =~= ema.layout() + buf@);
        Ok(ema)
    }
}

/// Where the tag of `fixed_cf_bps` stands in the stored state: behind four addresses, the fee
/// rate and the half life.
pub open spec fn option_at() -> int {
    138
}

/// The length of a stored state whose `fixed_cf_bps` has the given tag.
pub open spec fn state_len(tag: u8) -> int {
    if tag == 0 {
        340
    } else {
        342
    }
}

/// What is wrong with `bytes` as a stored state, if anything. Bytes behind the state do no harm.
pub open spec fn state_fault(bytes: Seq<u8>) -> Option<AccountError> {
    if bytes.len() <= option_at() {
        Some(AccountError::UnexpectedLength)
    } else {
        let tag = bytes[option_at()];
        if tag > 1 {
            Some(AccountError::InvalidOption(tag))
        } else if bytes.len() < state_len(tag) {
            Some(AccountError::UnexpectedLength)
        } else if bytes[state_len(tag) - 1] > 1 {
            Some(AccountError::InvalidBool(bytes[state_len(tag) - 1]))
        } else {
            None
        }
    }
}

impl OmnipairPair {
    /// The tokens, the linked accounts, the fee rate and the half life, as stored.
    pub open spec fn setup_layout(self) -> Seq<u8> {
        self.token0@
            + self.token1@
            + self.lp_mint@
            + self.rate_model@
            + le_bytes(self.swap_fee_bps as nat, 2)
            + le_bytes(self.half_life as nat, 8)
    }

    /// The reserves, the price averages, and when and at what rates they were last updated, as stored.
    pub open spec fn market_layout(self) -> Seq<u8> {
        le_bytes(self.reserve0 as nat, 8)
            + le_bytes(self.reserve1 as nat, 8)
            + le_bytes(self.cash_reserve0 as nat, 8)
            + le_bytes(self.cash_reserve1 as nat, 8)
            + self.last_price0_ema.layout()
            + self.last_price1_ema.layout()
            + le_bytes(self.last_update as nat, 8)
            + le_bytes(self.last_rate0 as nat, 8)
            + le_bytes(self.last_rate1 as nat, 8)
    }

    /// The debts, the supply and the collateral, as stored.
    pub open spec fn totals_layout(self) -> Seq<u8> {
        le_bytes(self.total_debt0 as nat, 8)
            + le_bytes(self.total_debt1 as nat, 8)
            + le_bytes(self.total_debt0_shares as nat, 16)
            + le_bytes(self.total_debt1_shares as nat, 16)
            + le_bytes(self.total_supply as nat, 8)
            + le_bytes(self.total_collateral0 as nat, 8)
            + le_bytes(self.total_collateral1 as nat, 8)
    }

    /// The decimals, the parameters' hash, the version, the bumps and the mode, as stored.
    pub open spec fn details_layout(self) -> Seq<u8> {
        seq![self.token0_decimals]
            + seq![self.token1_decimals]
            + self.params_hash@
            + seq![self.version]
            + seq![self.bump]
            + self.vault_bumps.layout()
            + bool_bytes(self.reduce_only)
    }

    /// The state as stored: the fields one behind another, in the order of the declaration.
    pub open spec fn layout(self) -> Seq<u8> {
        self.setup_layout()
            + option_u16_bytes(self.fixed_cf_bps)
            + self.market_layout()
            + self.totals_layout()
            + self.details_layout()
    }

    /// Putting these fields in front of `rest` one by one puts the section in front of it.
    proof fn lemma_setup_before(self, rest: Seq<u8>)
        ensures
            self.setup_layout() + rest == self.token0@ + (
                self.token1@ + (
                self.lp_mint@ + (
                self.rate_model@ + (
                le_bytes(self.swap_fee_bps as nat, 2) + (
                le_bytes(self.half_life as nat, 8) + rest))))),
    {
        broadcast use crate::wire::lemma_le_bytes_len;

    }

    /// Putting these fields in front of `rest` one by one puts the section in front of it.
    proof fn lemma_market_before(self, rest: Seq<u8>)
        ensures
            self.market_layout() + rest == le_bytes(self.reserve0 as nat, 8) + (
                le_bytes(self.reserve1 as nat, 8) + (
                le_bytes(self.cash_reserve0 as nat, 8) + (
                le_bytes(self.cash_reserve1 as nat, 8) + (
                self.last_price0_ema.layout() + (
                self.last_price1_ema.layout() + (
                le_bytes(self.last_update as nat, 8) + (
                le_bytes(self.last_rate0 as nat, 8) + (
                le_bytes(self.last_rate1 as nat, 8) + rest)))))))),
    {
        broadcast use crate::wire::lemma_le_bytes_len;

    }

    /// Putting these fields in front of `rest` one by one puts the section in front of it.
    proof fn lemma_totals_before(self, rest: Seq<u8>)
        ensures
            self.totals_layout() + rest == le_bytes(self.total_debt0 as nat, 8) + (
                le_bytes(self.total_debt1 as nat, 8) + (
                le_bytes(self.total_debt0_shares as nat, 16) + (
                le_bytes(self.total_debt1_shares as nat, 16) + (
                le_bytes(self.total_supply as nat, 8) + (
                le_bytes(self.total_collateral0 as nat, 8) + (
                le_bytes(self.total_collateral1 as nat, 8) + rest)))))),
    {
        broadcast use crate::wire::lemma_le_bytes_len;

    }

    /// Putting these fields in front of `rest` one by one puts the section in front of it.
    proof fn lemma_details_before(self, rest: Seq<u8>)
        ensures
            self.details_layout() + rest == seq![self.token0_decimals] + (
                seq![self.token1_decimals] + (
                self.params_hash@ + (
                seq![self.version] + (
                seq![self.bump] + (
                self.vault_bumps.layout() + (
                bool_bytes(self.reduce_only) + rest)))))),
    {
        broadcast use crate::wire::lemma_le_bytes_len;

    }

    /// Putting the sections in front of `rest` one by one puts the state in front of it.
    proof fn lemma_layout_before(self, rest: Seq<u8>)
        ensures
            self.layout() + rest == self.setup_layout() + (option_u16_bytes(self.fixed_cf_bps) + (
                self.market_layout() + (self.totals_layout() + (self.details_layout() + rest)))),
    {
    }

    /// Takes the state off the front of `buf`.
    #[verifier::rlimit(60)]
    pub(crate) fn deserialize(buf: &mut &[u8]) -> (result: Result<Self, AccountError>)
        ensures
            match result {
                Ok(pair) => {
                    &&& state_fault(old(buf)@) is None
                    &&& old(buf)@ == pair.layout() + final(buf)@
                },
                Err(e) => state_fault(old(buf)@) == Some(e),
            },
    {
        broadcast use crate::wire::lemma_le_bytes_len;

        let token0: Pubkey = read_pubkey(buf)?;
        let token1: Pubkey = read_pubkey(buf)?;
        let lp_mint: Pubkey = read_pubkey(buf)?;
        let rate_model: Pubkey = read_pubkey(buf)?;
        let swap_fee_bps: u16 = read_u16(buf)?;
        let half_life: u64 = read_u64(buf)?;
        let ghost after_setup = buf@;
        let fixed_cf_bps: Option<u16> = read_option_u16(buf)?;
        let reserve0: u64 = read_u64(buf)?;
        let reserve1: u64 = read_u64(buf)?;
        let cash_reserve0: u64 = read_u64(buf)?;
        let cash_reserve1: u64 = read_u64(buf)?;
        let last_price0_ema: LastPriceEMA = LastPriceEMA::deserialize(buf)?;
        let last_price1_ema: LastPriceEMA = LastPriceEMA::deserialize(buf)?;
        let last_update: u64 = read_u64(buf)?;
        let last_rate0: u64 = read_u64(buf)?;
        let last_rate1: u64 = read_u64(buf)?;
        let ghost after_market = buf@;
        let total_debt0: u64 = read_u64(buf)?;
        let total_debt1: u64 = read_u64(buf)?;
        let total_debt0_shares: u128 = read_u128(buf)?;
        let total_debt1_shares: u128 = read_u128(buf)?;
        let total_supply: u64 = read_u64(buf)?;
        let total_collateral0: u64 = read_u64(buf)?;
        let total_collateral1: u64 = read_u64(buf)?;
        let ghost after_totals = buf@;
        let token0_decimals: u8 = read_u8(buf)?;
        let token1_decimals: u8 = read_u8(buf)?;
        let params_hash: [u8; 32] = read_bytes32(buf)?;
        let version: u8 = read_u8(buf)?;
        let bump: u8 = read_u8(buf)?;
        let vault_bumps: VaultBumps = VaultBumps::deserialize(buf)?;
        let reduce_only: bool = read_bool(buf)?;
        let pair = OmnipairPair {
            token0,
            token1,
            lp_mint,
            rate_model,
            swap_fee_bps,
            half_life,
            fixed_cf_bps,
            reserve0,
            reserve1,
            cash_reserve0,
            cash_reserve1,
            last_price0_ema,
            last_price1_ema,
            last_update,
            last_rate0,
            last_rate1,
            total_debt0,
            total_debt1,
            total_debt0_shares,
            total_debt1_shares,
            total_supply,
            total_collateral0,
            total_collateral1,
            token0_decimals,
            token1_decimals,
            params_hash,
            version,
            bump,
            vault_bumps,
            reduce_only,
        };
        proof {
            pair.lemma_setup_before(after_setup);
            pair.lemma_market_before(after_market);
            pair.lemma_totals_before(after_totals);
            pair.lemma_details_before(buf@);
            pair.lemma_layout_before(buf@);
        }
        Ok(pair)
    }
}

/// The length of the tag that opens an account's data.
pub const DISCRIMINATOR_LEN: usize = 8;

/// What is wrong with `data` as the data of a pool's account, if anything.
pub open spec fn account_fault(data: Seq<u8>) -> Option<AccountError> {
    if data.len() < DISCRIMINATOR_LEN {
        Some(AccountError::Omnipair(OmnipairError::InvalidAccountData))
    } else {
        state_fault(data.skip(DISCRIMINATOR_LEN as int))
    }
}

/// `data` holds `pair`: behind the discriminator, whatever it is, stands the state, and whatever
/// follows it.
pub open spec fn account_holds(data: Seq<u8>, pair: OmnipairPair) -> bool {
    &&& data.len() >= DISCRIMINATOR_LEN
    &&& pair.layout().is_prefix_of(data.skip(DISCRIMINATOR_LEN as int))
}

/// Reads the state of a pool from the data of its account.
pub fn deserialize_pair(data: &[u8]) -> (result: Result<OmnipairPair, AccountError>)
    ensures
        match result {
            Ok(pair) => account_fault(data@) is None && account_holds(data@, pair),
            Err(e) => account_fault(data@) == Some(e),
        },
{
    if data.len() < DISCRIMINATOR_LEN {
        return Err(AccountError::Omnipair(OmnipairError::InvalidAccountData));
    }
    let mut state: &[u8] = vstd::slice::slice_subrange(data, DISCRIMINATOR_LEN, data.len());
    assert(state@ =~= data@.skip(DISCRIMINATOR_LEN as int));
    OmnipairPair::deserialize(&mut state)
}

/// What starts with two sequences has both of them in their places.
proof fn lemma_prefix_parts(front: Seq<u8>, back: Seq<u8>, whole: Seq<u8>)
    requires
        (front + back).is_prefix_of(whole),
    ensures
        front.is_prefix_of(whole),
        whole.len() >= front.len() + back.len(),
        whole.subrange(front.len() as int, (front.len() + back.len()) as int) == back,
{
    let both = front + back;
    assert(both == whole.subrange(0, both.len() as int));
    assert(front =~= both.subrange(0, front.len() as int));
    assert(front =~= whole.subrange(0, front.len() as int));
    assert(both.subrange(front.len() as int, both.len() as int) =~= back);
    assert(whole.subrange(front.len() as int, both.len() as int) =~= both.subrange(
        front.len() as int,
        both.len() as int,
    ));
}

/// Two records of averages that are stored alike are equal.
proof fn lemma_ema_injective(a: LastPriceEMA, b: LastPriceEMA)
    requires
        a.layout() == b.layout(),
    ensures
        a == b,
{
    broadcast use crate::wire::lemma_le_bytes_len;

    assert(a.layout().subrange(0, 8) =~= le_bytes(a.symmetric as nat, 8));
    assert(b.layout().subrange(0, 8) =~= le_bytes(b.symmetric as nat, 8));
    assert(a.layout().subrange(8, 16) =~= le_bytes(a.directional as nat, 8));
    assert(b.layout().subrange(8, 16) =~= le_bytes(b.directional as nat, 8));
    lemma_u64_bytes_injective(a.symmetric, b.symmetric);
    lemma_u64_bytes_injective(a.directional, b.directional);
}

impl OmnipairPair {
    /// The tokens, the linked accounts, the fee rate and the half life are determined by how they are stored.
    proof fn lemma_setup_injective(self, other: Self)
        requires
            self.setup_layout() == other.setup_layout(),
        ensures
            self.token0 == other.token0,
            self.token1 == other.token1,
            self.lp_mint == other.lp_mint,
            self.rate_model == other.rate_model,
            self.swap_fee_bps == other.swap_fee_bps,
            self.half_life == other.half_life,
    {
        broadcast use crate::wire::lemma_le_bytes_len;

        let bytes = self.setup_layout();
        assert(bytes.subrange(0, 32) =~= self.token0@);
        assert(bytes.subrange(0, 32) =~= other.token0@);
        lemma_pubkey_ext(self.token0, other.token0);
        assert(bytes.subrange(32, 64) =~= self.token1@);
        assert(bytes.subrange(32, 64) =~= other.token1@);
        lemma_pubkey_ext(self.token1, other.token1);
        assert(bytes.subrange(64, 96) =~= self.lp_mint@);
        assert(bytes.subrange(64, 96) =~= other.lp_mint@);
        lemma_pubkey_ext(self.lp_mint, other.lp_mint);
        assert(bytes.subrange(96, 128) =~= self.rate_model@);
        assert(bytes.subrange(96, 128) =~= other.rate_model@);
        lemma_pubkey_ext(self.rate_model, other.rate_model);
        assert(bytes.subrange(128, 130) =~= le_bytes(self.swap_fee_bps as nat, 2));
        assert(bytes.subrange(128, 130) =~= le_bytes(other.swap_fee_bps as nat, 2));
        lemma_u16_bytes_injective(self.swap_fee_bps, other.swap_fee_bps);
        assert(bytes.subrange(130, 138) =~= le_bytes(self.half_life as nat, 8));
        assert(bytes.subrange(130, 138) =~= le_bytes(other.half_life as nat, 8));
        lemma_u64_bytes_injective(self.half_life, other.half_life);
    }

    /// The reserves, the price averages, and when and at what rates they were last updated are determined by how they are stored.
    proof fn lemma_market_injective(self, other: Self)
        requires
            self.market_layout() == other.market_layout(),
        ensures
            self.reserve0 == other.reserve0,
            self.reserve1 == other.reserve1,
            self.cash_reserve0 == other.cash_reserve0,
            self.cash_reserve1 == other.cash_reserve1,
            self.last_price0_ema == other.last_price0_ema,
            self.last_price1_ema == other.last_price1_ema,
            self.last_update == other.last_update,
            self.last_rate0 == other.last_rate0,
            self.last_rate1 == other.last_rate1,
    {
        broadcast use crate::wire::lemma_le_bytes_len;

        let bytes = self.market_layout();
        assert(bytes.subrange(0, 8) =~= le_bytes(self.reserve0 as nat, 8));
        assert(bytes.subrange(0, 8) =~= le_bytes(other.reserve0 as nat, 8));
        lemma_u64_bytes_injective(self.reserve0, other.reserve0);
        assert(bytes.subrange(8, 16) =~= le_bytes(self.reserve1 as nat, 8));
        assert(bytes.subrange(8, 16) =~= le_bytes(other.reserve1 as nat, 8));
        lemma_u64_bytes_injective(self.reserve1, other.reserve1);
        assert(bytes.subrange(16, 24) =~= le_bytes(self.cash_reserve0 as nat, 8));
        assert(bytes.subrange(16, 24) =~= le_bytes(other.cash_reserve0 as nat, 8));
        lemma_u64_bytes_injective(self.cash_reserve0, other.cash_reserve0);
        assert(bytes.subrange(24, 32) =~= le_bytes(self.cash_reserve1 as nat, 8));
        assert(bytes.subrange(24, 32) =~= le_bytes(other.cash_reserve1 as nat, 8));
        lemma_u64_bytes_injective(self.cash_reserve1, other.cash_reserve1);
        assert(bytes.subrange(32, 48) =~= self.last_price0_ema.layout());
        assert(bytes.subrange(32, 48) =~= other.last_price0_ema.layout());
        lemma_ema_injective(self.last_price0_ema, other.last_price0_ema);
        assert(bytes.subrange(48, 64) =~= self.last_price1_ema.layout());
        assert(bytes.subrange(48, 64) =~= other.last_price1_ema.layout());
        lemma_ema_injective(self.last_price1_ema, other.last_price1_ema);
        assert(bytes.subrange(64, 72) =~= le_bytes(self.last_update as nat, 8));
        assert(bytes.subrange(64, 72) =~= le_bytes(other.last_update as nat, 8));
        lemma_u64_bytes_injective(self.last_update, other.last_update);
        assert(bytes.subrange(72, 80) =~= le_bytes(self.last_rate0 as nat, 8));
        assert(bytes.subrange(72, 80) =~= le_bytes(other.last_rate0 as nat, 8));
        lemma_u64_bytes_injective(self.last_rate0, other.last_rate0);
        assert(bytes.subrange(80, 88) =~= le_bytes(self.last_rate1 as nat, 8));
        assert(bytes.subrange(80, 88) =~= le_bytes(other.last_rate1 as nat, 8));
        lemma_u64_bytes_injective(self.last_rate1, other.last_rate1);
    }

    /// The debts, the supply and the collateral are determined by how they are stored.
    proof fn lemma_totals_injective(self, other: Self)
        requires
            self.totals_layout() == other.totals_layout(),
        ensures
            self.total_debt0 == other.total_debt0,
            self.total_debt1 == other.total_debt1,
            self.total_debt0_shares == other.total_debt0_shares,
            self.total_debt1_shares == other.total_debt1_shares,
            self.total_supply == other.total_supply,
            self.total_collateral0 == other.total_collateral0,
            self.total_collateral1 == other.total_collateral1,
    {
        broadcast use crate::wire::lemma_le_bytes_len;

        let bytes = self.totals_layout();
        assert(bytes.subrange(0, 8) =~= le_bytes(self.total_debt0 as nat, 8));
        assert(bytes.subrange(0, 8) =~= le_bytes(other.total_debt0 as nat, 8));
        lemma_u64_bytes_injective(self.total_debt0, other.total_debt0);
        assert(bytes.subrange(8, 16) =~= le_bytes(self.total_debt1 as nat, 8));
        assert(bytes.subrange(8, 16) =~= le_bytes(other.total_debt1 as nat, 8));
        lemma_u64_bytes_injective(self.total_debt1, other.total_debt1);
        assert(bytes.subrange(16, 32) =~= le_bytes(self.total_debt0_shares as nat, 16));
        assert(bytes.subrange(16, 32) =~= le_bytes(other.total_debt0_shares as nat, 16));
        lemma_u128_bytes_injective(self.total_debt0_shares, other.total_debt0_shares);
        assert(bytes.subrange(32, 48) =~= le_bytes(self.total_debt1_shares as nat, 16));
        assert(bytes.subrange(32, 48) =~= le_bytes(other.total_debt1_shares as nat, 16));
        lemma_u128_bytes_injective(self.total_debt1_shares, other.total_debt1_shares);
        assert(bytes.subrange(48, 56) =~= le_bytes(self.total_supply as nat, 8));
        assert(bytes.subrange(48, 56) =~= le_bytes(other.total_supply as nat, 8));
        lemma_u64_bytes_injective(self.total_supply, other.total_supply);
        assert(bytes.subrange(56, 64) =~= le_bytes(self.total_collateral0 as nat, 8));
        assert(bytes.subrange(56, 64) =~= le_bytes(other.total_collateral0 as nat, 8));
        lemma_u64_bytes_injective(self.total_collateral0, other.total_collateral0);
        assert(bytes.subrange(64, 72) =~= le_bytes(self.total_collateral1 as nat, 8));
        assert(bytes.subrange(64, 72) =~= le_bytes(other.total_collateral1 as nat, 8));
        lemma_u64_bytes_injective(self.total_collateral1, other.total_collateral1);
    }

    /// The decimals, the parameters' hash, the version, the bumps and the mode are determined by how they are stored.
    proof fn lemma_details_injective(self, other: Self)
        requires
            self.details_layout() == other.details_layout(),
        ensures
            self.token0_decimals == other.token0_decimals,
            self.token1_decimals == other.token1_decimals,
            self.params_hash == other.params_hash,
            self.version == other.version,
            self.bump == other.bump,
            self.vault_bumps == other.vault_bumps,
            self.reduce_only == other.reduce_only,
    {
        broadcast use crate::wire::lemma_le_bytes_len;

        let bytes = self.details_layout();
        assert(bytes[0] == self.token0_decimals);
        assert(other.details_layout()[0] == other.token0_decimals);
        assert(bytes[1] == self.token1_decimals);
        assert(other.details_layout()[1] == other.token1_decimals);
        assert(bytes.subrange(2, 34) =~= self.params_hash@);
        assert(bytes.subrange(2, 34) =~= other.params_hash@);
        assert(self.params_hash =~= other.params_hash);
        assert(bytes[34] == self.version);
        assert(other.details_layout()[34] == other.version);
        assert(bytes[35] == self.bump);
        assert(other.details_layout()[35] == other.bump);
        assert(bytes[36] == self.vault_bumps.reserve0);
        assert(other.details_layout()[36] == other.vault_bumps.reserve0);
        assert(bytes[37] == self.vault_bumps.reserve1);
        assert(other.details_layout()[37] == other.vault_bumps.reserve1);
        assert(bytes[38] == self.vault_bumps.collateral0);
        assert(other.details_layout()[38] == other.vault_bumps.collateral0);
        assert(bytes[39] == self.vault_bumps.collateral1);
        assert(other.details_layout()[39] == other.vault_bumps.collateral1);
        assert(bytes[40] == bool_bytes(self.reduce_only)[0]);
        assert(other.details_layout()[40] == bool_bytes(other.reduce_only)[0]);
    }

    /// Where the sections of a stored state stand.
    pub(crate) proof fn lemma_sections(self, whole: Seq<u8>)
        requires
            self.layout().is_prefix_of(whole),
        ensures
            self.setup_layout().len() == option_at(),
            self.layout().len() == state_len(option_u16_bytes(self.fixed_cf_bps)[0]),
            whole.len() >= self.layout().len(),
            whole[option_at()] == option_u16_bytes(self.fixed_cf_bps)[0],
            whole[self.layout().len() - 1] == bool_bytes(self.reduce_only)[0],
            ({
                let market_at = option_at() + option_u16_bytes(self.fixed_cf_bps).len();
                &&& whole.subrange(0, option_at()) == self.setup_layout()
                &&& whole.subrange(option_at(), market_at) == option_u16_bytes(self.fixed_cf_bps)
                &&& whole.subrange(market_at, market_at + 88) == self.market_layout()
                &&& whole.subrange(market_at + 88, market_at + 160) == self.totals_layout()
                &&& whole.subrange(market_at + 160, market_at + 201) == self.details_layout()
            }),
    {
        broadcast use crate::wire::lemma_le_bytes_len;

        let setup = self.setup_layout();
        let option = option_u16_bytes(self.fixed_cf_bps);
        let market = self.market_layout();
        let totals = self.totals_layout();
        let details = self.details_layout();
        lemma_prefix_parts(setup + option + market + totals, details, whole);
        lemma_prefix_parts(setup + option + market, totals, whole);
        lemma_prefix_parts(setup + option, market, whole);
        lemma_prefix_parts(setup, option, whole);
        let market_at = option_at() + option.len();
        assert(whole[option_at()] == whole.subrange(option_at(), market_at)[0]);
        assert(details[40] == bool_bytes(self.reduce_only)[0]);
        assert(whole[market_at + 200] == details[40]);
    }
}

/// Data that holds a state has no fault.
pub proof fn lemma_held_state_has_no_fault(data: Seq<u8>, pair: OmnipairPair)
    requires
        account_holds(data, pair),
    ensures
        account_fault(data) is None,
{
    pair.lemma_sections(data.skip(DISCRIMINATOR_LEN as int));
}

/// The data of an account holds at most one state.
pub proof fn lemma_account_holds_one_state(data: Seq<u8>, p: OmnipairPair, q: OmnipairPair)
    requires
        account_holds(data, p),
        account_holds(data, q),
    ensures
        p == q,
{
    broadcast use crate::wire::lemma_le_bytes_len;

    let whole = data.skip(DISCRIMINATOR_LEN as int);
    p.lemma_sections(whole);
    q.lemma_sections(whole);
    if let Some(number) = p.fixed_cf_bps {
        let other = q.fixed_cf_bps->0;
        assert(option_u16_bytes(p.fixed_cf_bps).skip(1) =~= le_bytes(number as nat, 2));
        assert(option_u16_bytes(q.fixed_cf_bps).skip(1) =~= le_bytes(other as nat, 2));
        lemma_u16_bytes_injective(number, other);
    }
    assert(p.fixed_cf_bps == q.fixed_cf_bps);
    p.lemma_setup_injective(q);
    p.lemma_market_injective(q);
    p.lemma_totals_injective(q);
    p.lemma_details_injective(q);
}

/// A state that is stored behind a discriminator is read back, whatever the discriminator is and
/// whatever follows: the data has no fault, and this state is the one that it holds.
pub proof fn lemma_stored_state_is_read_back(
    discriminator: Seq<u8>,
    pair: OmnipairPair,
    trailing: Seq<u8>,
)
    requires
        discriminator.len() == DISCRIMINATOR_LEN,
    ensures
        account_fault(discriminator + pair.layout() + trailing) is None,
        account_holds(discriminator + pair.layout() + trailing, pair),
        forall|other: OmnipairPair|
            account_holds(discriminator + pair.layout() + trailing, other) ==> other == pair,
{
    let data = discriminator + pair.layout() + trailing;
    let whole = data.skip(DISCRIMINATOR_LEN as int);
    assert(whole =~= pair.layout() + trailing);
    assert(pair.layout() =~= whole.subrange(0, pair.layout().len() as int));
    lemma_held_state_has_no_fault(data, pair);
    assert forall|other: OmnipairPair| account_holds(data, other) implies other == pair by {
        lemma_account_holds_one_state(data, other, pair);
    }
}

} // verus!
