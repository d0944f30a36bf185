//! A pool as a router sees it: its state, its quotes, and the accounts of its swaps.

use crate::accounts::{AccountMap, AccountMeta, KeyedAccount, OmnipairSwapAccounts};
use crate::decimal::Decimal;
use crate::error::{AccountError, OmnipairError};
use crate::pair::{
    account_fault, account_holds, deserialize_pair, lemma_account_holds_one_state, OmnipairPair,
};
use crate::program_address::DerivedAccounts;
use crate::pubkey::{
    Pubkey, OMNIPAIR_PROGRAM_ID, SPL_TOKEN_PROGRAM_ID, TOKEN_2022_PROGRAM_ID,
};
use vstd::prelude::*;

verus! {

/// Which side of a swap is fixed.
#[derive(Debug, Clone, Copy, PartialEq, Eq, Structural)]
pub enum SwapMode {
    ExactIn,
    ExactOut,
}

/// What a quote is asked for.
#[derive(Debug, Clone, Copy)]
pub struct QuoteParams {
    pub amount: u64,
    pub input_mint: Pubkey,
    pub output_mint: Pubkey,
    pub swap_mode: SwapMode,
}

/// A quote.
#[derive(Debug, Clone, Copy, PartialEq, Eq)]
pub struct Quote {
    pub in_amount: u64,
    pub out_amount: u64,
    pub fee_amount: u64,
    pub fee_mint: Pubkey,
    pub fee_pct: Decimal,
}

/// What the accounts of a swap are asked for.
#[derive(Debug, Clone, Copy)]
pub struct SwapParams {
    pub source_mint: Pubkey,
    pub destination_mint: Pubkey,
    pub source_token_account: Pubkey,
    pub destination_token_account: Pubkey,
    pub token_transfer_authority: Pubkey,
}

/// The kind of swap that a router has to perform.
#[derive(Debug, Clone, Copy, PartialEq, Eq, Structural)]
pub enum Swap {
    TokenSwap,
}

/// A swap with the accounts of its instruction.
#[derive(Debug)]
pub struct SwapAndAccountMetas {
    pub swap: Swap,
    pub account_metas: Vec<AccountMeta>,
}

impl Clone for SwapAndAccountMetas {
    /// The same swap with the same accounts.
    fn clone(&self) -> (copy: Self)
        ensures
            copy.swap == self.swap,
            copy.account_metas@ == self.account_metas@,
    {
        let account_metas = self.account_metas.clone();
        assert(account_metas@ =~= self.account_metas@);
        SwapAndAccountMetas { swap: self.swap, account_metas }
    }
}

/// Digits behind the point of a rate in basis points.
pub const BPS_SCALE: u32 = 4;

/// The number of accounts of a swap.
pub const SWAP_ACCOUNTS_LEN: usize = 14;

/// A pool, its state, and the addresses derived from them.
#[derive(Debug)]
pub struct OmnipairAmmClient {
    pub pair_key: Pubkey,
    pub state: OmnipairPair,
    pub derived: DerivedAccounts,
}

impl Clone for OmnipairAmmClient {
    /// The same pool, state and addresses.
    fn clone(&self) -> (copy: Self)
        ensures
            copy == *self,
    {
        OmnipairAmmClient {
            pair_key: self.pair_key,
            state: self.state.clone(),
            derived: self.derived,
        }
    }
}

/// Whatever state `data` holds for the pool at `pair_key`, its addresses exist.
pub open spec fn addresses_exist(pair_key: Pubkey, data: Seq<u8>) -> bool {
    forall|state: OmnipairPair| #[trigger]
        account_holds(data, state) ==> DerivedAccounts::exist_for(pair_key, state)
}

/// What is wrong with the accounts supplied for an update of the pool at `pair_key`, if anything.
pub open spec fn update_fault(accounts: Map<Pubkey, Seq<u8>>, pair_key: Pubkey) -> Option<
    AccountError,
> {
    if !accounts.contains_key(pair_key) {
        Some(AccountError::PairAccountNotFound)
    } else {
        account_fault(accounts[pair_key])
    }
}

impl OmnipairAmmClient {
    /// The derived addresses are those of this pool in this state.
    pub open spec fn well_formed(self) -> bool {
        self.derived.belong_to(self.pair_key, self.state)
    }

    /// This client was read from `data`, the data of the account at `key`.
    pub open spec fn read_from(self, key: Pubkey, data: Seq<u8>) -> bool {
        &&& self.pair_key == key
        &&& account_holds(data, self.state)
        &&& self.well_formed()
    }

    /// The accounts of a swap. Any source mint but token 0 counts as token 1.
    pub open spec fn swap_accounts(self, params: SwapParams) -> OmnipairSwapAccounts {
        let sells_token0 = self.state.sells_token0(params.source_mint);
        OmnipairSwapAccounts {
            pair: self.pair_key,
            rate_model: self.state.rate_model,
            futarchy_authority: self.derived.futarchy_authority,
            token_in_vault: if sells_token0 {
                self.derived.reserve_vault0
            } else {
                self.derived.reserve_vault1
            },
            token_out_vault: if sells_token0 {
                self.derived.reserve_vault1
            } else {
                self.derived.reserve_vault0
            },
            user_token_in_account: params.source_token_account,
            user_token_out_account: params.destination_token_account,
            token_in_mint: if sells_token0 {
                self.state.token0
            } else {
                self.state.token1
            },
            token_out_mint: if sells_token0 {
                self.state.token1
            } else {
                self.state.token0
            },
            user: params.token_transfer_authority,
            token_program: Pubkey { bytes: SPL_TOKEN_PROGRAM_ID },
            token_2022_program: Pubkey { bytes: TOKEN_2022_PROGRAM_ID },
            event_authority: self.derived.event_authority,
            omnipair_program: Pubkey { bytes: OMNIPAIR_PROGRAM_ID },
        }
    }

    /// The answer to a request for a quote.
    pub open spec fn quote_answer(self, params: QuoteParams) -> Result<Quote, OmnipairError> {
        if params.swap_mode == SwapMode::ExactOut {
            Err(OmnipairError::ExactOutNotSupported)
        } else {
            match self.state.swap_answer(params.amount, params.input_mint) {
                Err(e) => Err(e),
                Ok(swap) => Ok(
                    Quote {
                        in_amount: params.amount,
                        out_amount: swap.amount_out,
                        fee_amount: swap.fee_amount,
                        fee_mint: params.input_mint,
                        fee_pct: Decimal {
                            mantissa: self.state.swap_fee_bps as i128,
                            scale: BPS_SCALE,
                        },
                    },
                ),
            }
        }
    }

    /// Reads a pool from its account. The addresses of the pool have to exist.
    pub fn from_keyed_account(keyed_account: &KeyedAccount) -> (result: Result<Self, AccountError>)
        requires
            addresses_exist(keyed_account.key, keyed_account.data@),
        ensures
            match result {
                Ok(client) => {
                    &&& account_fault(keyed_account.data@) is None
                    &&& client.read_from(keyed_account.key, keyed_account.data@)
                },
                Err(e) => account_fault(keyed_account.data@) == Some(e),
            },
    {
        let state = deserialize_pair(keyed_account.data.as_slice())?;
        let derived = DerivedAccounts::compute(&keyed_account.key, &state);
        Ok(OmnipairAmmClient { pair_key: keyed_account.key, state, derived })
    }

    /// Reads a pool from its account; `None` exactly when the account holds a state but an address
    /// of the pool does not exist.
    pub fn try_from_keyed_account(keyed_account: &KeyedAccount) -> (result: Option<
        Result<Self, AccountError>,
    >)
        ensures
            match result {
                Some(Ok(client)) => {
                    &&& account_fault(keyed_account.data@) is None
                    &&& client.read_from(keyed_account.key, keyed_account.data@)
                },
                Some(Err(e)) => account_fault(keyed_account.data@) == Some(e),
                None => {
                    &&& account_fault(keyed_account.data@) is None
                    &&& !addresses_exist(keyed_account.key, keyed_account.data@)
                },
            },
    {
        let state = match deserialize_pair(keyed_account.data.as_slice()) {
            Ok(state) => state,
            Err(e) => return Some(Err(e)),
        };
        if !DerivedAccounts::can_compute(&keyed_account.key, &state) {
            return None;
        }
        proof {
            lemma_addresses_exist(keyed_account.key, keyed_account.data@, state);
        }
        Some(Self::from_keyed_account(keyed_account))
    }

    /// The name of the exchange.
    pub fn label(&self) -> (label: String)
        ensures
            label@ == "Omnipair"@,
    {
        "Omnipair".to_owned()
    }

    /// The program that runs the pool.
    pub fn program_id(&self) -> (id: Pubkey)
        ensures
            id == (Pubkey { bytes: OMNIPAIR_PROGRAM_ID }),
    {
        Pubkey { bytes: OMNIPAIR_PROGRAM_ID }
    }

    /// The address of the pool.
    pub fn key(&self) -> (key: Pubkey)
        ensures
            key == self.pair_key,
    {
        self.pair_key
    }

    /// The mints that can be traded.
    pub fn get_reserve_mints(&self) -> (mints: Vec<Pubkey>)
        ensures
            mints@ == seq![self.state.token0, self.state.token1],
    {
        vec![self.state.token0, self.state.token1]
    }

    /// The accounts that an update needs.
    pub fn get_accounts_to_update(&self) -> (keys: Vec<Pubkey>)
        ensures
            keys@ == seq![self.pair_key],
    {
        vec![self.pair_key]
    }

    /// Reads the state of the pool anew. The addresses of the pool have to exist. A refusal leaves
    /// the client as it was.
    pub fn update(&mut self, account_map: &AccountMap) -> (result: Result<(), AccountError>)
        requires
            account_map@.contains_key(old(self).pair_key) ==> addresses_exist(
                old(self).pair_key,
                account_map@[old(self).pair_key],
            ),
        ensures
            match result {
                Ok(()) => {
                    &&& update_fault(account_map@, old(self).pair_key) is None
                    &&& final(self).read_from(
                        old(self).pair_key,
                        account_map@[old(self).pair_key],
                    )
                },
                Err(e) => {
                    &&& update_fault(account_map@, old(self).pair_key) == Some(e)
                    &&& *final(self) == *old(self)
                },
            },
    {
        let data = match account_map.get(&self.pair_key) {
            Some(data) => data,
            None => return Err(AccountError::PairAccountNotFound),
        };
        let state = deserialize_pair(data.as_slice())?;
        self.derived = DerivedAccounts::compute(&self.pair_key, &state);
        self.state = state;
        Ok(())
    }

    /// Reads the state of the pool anew; `None` exactly when its account holds a state but an
    /// address of the pool does not exist. Anything but a success leaves the client as it was.
    pub fn try_update(&mut self, account_map: &AccountMap) -> (result: Option<
        Result<(), AccountError>,
    >)
        ensures
            match result {
                Some(Ok(())) => {
                    &&& update_fault(account_map@, old(self).pair_key) is None
                    &&& final(self).read_from(
                        old(self).pair_key,
                        account_map@[old(self).pair_key],
                    )
                },
                Some(Err(e)) => {
                    &&& update_fault(account_map@, old(self).pair_key) == Some(e)
                    &&& *final(self) == *old(self)
                },
                None => {
                    &&& update_fault(account_map@, old(self).pair_key) is None
                    &&& !addresses_exist(old(self).pair_key, account_map@[old(self).pair_key])
                    &&& *final(self) == *old(self)
                },
            },
    {
        if let Some(data) = account_map.get(&self.pair_key) {
            let state = match deserialize_pair(data.as_slice()) {
                Ok(state) => state,
                Err(e) => return Some(Err(e)),
            };
            if !DerivedAccounts::can_compute(&self.pair_key, &state) {
                return None;
            }
            proof {
                lemma_addresses_exist(self.pair_key, data@, state);
            }
        }
        Some(self.update(account_map))
    }

    /// The number of accounts of a swap.
    pub fn get_accounts_len(&self) -> (len: usize)
        ensures
            len == SWAP_ACCOUNTS_LEN,
    {
        SWAP_ACCOUNTS_LEN
    }

    /// Quotes a swap of an exact amount in; a swap for an exact amount out is refused.
    pub fn quote(&self, quote_params: &QuoteParams) -> (result: Result<Quote, OmnipairError>)
        ensures
            result == self.quote_answer(*quote_params),
    {
        if quote_params.swap_mode == SwapMode::ExactOut {
            return Err(OmnipairError::ExactOutNotSupported);
        }
        let swap = self.state.swap_quote(quote_params.amount, quote_params.input_mint)?;
        Ok(
            Quote {
                in_amount: quote_params.amount,
                out_amount: swap.amount_out,
                fee_amount: swap.fee_amount,
                fee_mint: quote_params.input_mint,
                fee_pct: Decimal::new(self.state.swap_fee_bps as i64, BPS_SCALE),
            },
        )
    }

    /// The swap to perform and its accounts. No request is refused.
    pub fn get_swap_and_account_metas(&self, swap_params: &SwapParams) -> (result: Result<
        SwapAndAccountMetas,
        OmnipairError,
    >)
        ensures
            result matches Ok(swap) && swap.swap == Swap::TokenSwap && swap.account_metas@
                == self.swap_accounts(*swap_params).metas(),
    {
        let is_token0_in = swap_params.source_mint == self.state.token0;
        let (token_in_mint, token_out_mint, token_in_vault, token_out_vault) = if is_token0_in {
            (
                self.state.token0,
                self.state.token1,
                self.derived.reserve_vault0,
                self.derived.reserve_vault1,
            )
        } else {
            (
                self.state.token1,
                self.state.token0,
                self.derived.reserve_vault1,
                self.derived.reserve_vault0,
            )
        };
        let accounts = OmnipairSwapAccounts {
            pair: self.pair_key,
            rate_model: self.state.rate_model,
            futarchy_authority: self.derived.futarchy_authority,
            token_in_vault,
            token_out_vault,
            user_token_in_account: swap_params.source_token_account,
            user_token_out_account: swap_params.destination_token_account,
            token_in_mint,
            token_out_mint,
            user: swap_params.token_transfer_authority,
            token_program: Pubkey { bytes: SPL_TOKEN_PROGRAM_ID },
            token_2022_program: Pubkey { bytes: TOKEN_2022_PROGRAM_ID },
            event_authority: self.derived.event_authority,
            omnipair_program: Pubkey { bytes: OMNIPAIR_PROGRAM_ID },
        };
        Ok(SwapAndAccountMetas { swap: Swap::TokenSwap, account_metas: accounts.into() })
    }
}

/// As data holds one state at most, the addresses that exist for one state it holds are all that
/// are needed.
proof fn lemma_addresses_exist(pair_key: Pubkey, data: Seq<u8>, state: OmnipairPair)
    requires
        account_holds(data, state),
        DerivedAccounts::exist_for(pair_key, state),
    ensures
        addresses_exist(pair_key, data),
{
    assert forall|other: OmnipairPair| #[trigger]
        account_holds(data, other) implies DerivedAccounts::exist_for(pair_key, other) by {
        lemma_account_holds_one_state(data, state, other);
    }
}

} // verus!
