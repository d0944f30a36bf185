//! Swap quotes and swap accounts for Omnipair pools.
//!
//! - [`pair`]: the state of a pool and its layout in an account.
//! - [`swap`]: the constant product, the fee, and quotes.
//! - [`program_address`]: the addresses that belong to a pool.
//! - [`accounts`]: the accounts that a swap names.
//! - [`client`]: a pool as a router sees it.
//! - [`laws`], [`account_laws`], [`address_laws`]: what holds of all of these together.

pub mod account_laws;
pub mod accounts;
pub mod address_laws;
pub mod client;
pub mod decimal;
pub mod error;
pub mod laws;
pub mod math;
pub mod pair;
pub mod program_address;
pub mod pubkey;
pub mod swap;
pub mod wire;

pub use accounts::{AccountMap, AccountMeta, KeyedAccount, OmnipairSwapAccounts};
pub use client::{
    OmnipairAmmClient, Quote, QuoteParams, Swap, SwapAndAccountMetas, SwapMode, SwapParams,
};
pub use decimal::Decimal;
pub use error::{AccountError, OmnipairError};
pub use math::ceil_div;
pub use pair::{deserialize_pair, LastPriceEMA, OmnipairPair, VaultBumps};
pub use program_address::DerivedAccounts;
pub use pubkey::{Pubkey, OMNIPAIR_PROGRAM_ID, SPL_TOKEN_PROGRAM_ID, TOKEN_2022_PROGRAM_ID};
pub use swap::SwapQuote;
