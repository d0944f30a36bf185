//! Quotes for swaps against a pool's reserves.

use crate::error::OmnipairError;
use crate::math::{ceil_div, ceil_quotient};
use crate::pair::OmnipairPair;
use crate::pubkey::Pubkey;
use vstd::prelude::*;

verus! {

/// Basis points in a whole.
pub const BPS_DENOMINATOR: u128 = 10_000;

/// What a swap pays out and what it is charged.
#[derive(Debug, Clone, Copy, PartialEq, Eq, Structural)]
pub struct SwapQuote {
    pub amount_out: u64,
    pub fee_amount: u64,
}

/// What a constant-product pool pays for `amount_in`, rounded down.
pub open spec fn constant_product_out(reserve_in: int, reserve_out: int, amount_in: int) -> int {
    (amount_in * reserve_out) / (reserve_in + amount_in)
}

/// The fee that a rate owes: `amount` times `bps` basis points, rounded up. At a rate above the
/// whole it exceeds the amount.
pub open spec fn nominal_fee(amount: int, bps: int) -> int {
    ceil_quotient(amount * bps, BPS_DENOMINATOR as int)
}

/// The constant-product payout keeps below the whole output reserve, so it fits in 64 bits.
pub proof fn lemma_out_within_reserve(reserve_in: int, reserve_out: int, amount_in: int)
    requires
        0 <= reserve_in,
        0 <= reserve_out,
        0 <= amount_in,
        reserve_in + amount_in > 0,
    ensures
        0 <= constant_product_out(reserve_in, reserve_out, amount_in) <= reserve_out,
        reserve_in > 0 && reserve_out > 0 ==> constant_product_out(
            reserve_in,
            reserve_out,
            amount_in,
        ) < reserve_out,
{
    let d = reserve_in + amount_in;
    let n = amount_in * reserve_out;
    let q = n / d;
    vstd::arithmetic::div_mod::lemma_fundamental_div_mod(n, d);
    let r = n % d;
    assert(0 <= q <= reserve_out && (reserve_in > 0 && reserve_out > 0 ==> q < reserve_out))
        by (nonlinear_arith)
        requires
            n == d * q + r,
            0 <= r < d,
            n == amount_in * reserve_out,
            d == reserve_in + amount_in,
            0 <= reserve_in,
            0 <= reserve_out,
            0 <= amount_in,
    ;
}

impl OmnipairPair {
    /// Whether a swap of `mint` sells token 0. A mint equal to both tokens counts as token 0.
    pub open spec fn sells_token0(self, mint: Pubkey) -> bool {
        mint == self.token0
    }

    /// The reserve that a swap of `mint` adds to.
    pub open spec fn reserve_in(self, mint: Pubkey) -> u64 {
        if self.sells_token0(mint) {
            self.reserve0
        } else {
            self.reserve1
        }
    }

    /// The reserve that a swap of `mint` draws on.
    pub open spec fn reserve_out(self, mint: Pubkey) -> u64 {
        if self.sells_token0(mint) {
            self.reserve1
        } else {
            self.reserve0
        }
    }

    /// The part of the output reserve that is not lent out.
    pub open spec fn cash_out(self, mint: Pubkey) -> u64 {
        if self.sells_token0(mint) {
            self.cash_reserve1
        } else {
            self.cash_reserve0
        }
    }

    /// The fee on a swap of `amount_in`.
    pub open spec fn fee(self, amount_in: u64) -> int {
        nominal_fee(amount_in as int, self.swap_fee_bps as int)
    }

    /// What the pool pays for `amount_in` of `mint` once the fee is off.
    pub open spec fn payout(self, amount_in: u64, mint: Pubkey) -> int {
        constant_product_out(
            self.reserve_in(mint) as int,
            self.reserve_out(mint) as int,
            amount_in - self.fee(amount_in),
        )
    }

    /// The answer to a swap of `amount_in` of `mint`; the first refusal that applies counts.
    pub open spec fn swap_answer(self, amount_in: u64, mint: Pubkey) -> Result<
        SwapQuote,
        OmnipairError,
    > {
        if mint != self.token0 && mint != self.token1 {
            Err(OmnipairError::InvalidQuoteParams)
        } else if self.reserve_in(mint) == 0 || self.reserve_out(mint) == 0 {
            Err(OmnipairError::InvalidReserves)
        } else if self.fee(amount_in) > amount_in {
            Err(OmnipairError::MathOverflow)
        } else if self.payout(amount_in, mint) > self.cash_out(mint) {
            Err(OmnipairError::InsufficientCashReserve)
        } else {
            Ok(
                SwapQuote {
                    amount_out: self.payout(amount_in, mint) as u64,
                    fee_amount: self.fee(amount_in) as u64,
                },
            )
        }
    }

    /// Constant-product swap: `amount_in * reserve_out / (reserve_in + amount_in)`, rounded down.
    /// Refused exactly when nothing is in the pool and nothing comes in.
    pub fn calculate_amount_out(reserve_in: u64, reserve_out: u64, amount_in: u64) -> (result:
        Result<u64, OmnipairError>)
        ensures
            reserve_in == 0 && amount_in == 0 <==> result is Err,
            result matches Err(e) ==> e == OmnipairError::MathOverflow,
            result matches Ok(amount_out) ==> amount_out == constant_product_out(
                reserve_in as int,
                reserve_out as int,
                amount_in as int,
            ),
    {
        let denominator: u128 = reserve_in as u128 + amount_in as u128;
        proof {
            assert(amount_in * reserve_out <= u64::MAX * u64::MAX) by (nonlinear_arith)
                requires
                    0 <= amount_in <= u64::MAX,
                    0 <= reserve_out <= u64::MAX,
            ;
        }
        let numerator: u128 = amount_in as u128 * reserve_out as u128;
        if denominator == 0 {
            return Err(OmnipairError::MathOverflow);
        }
        proof {
            lemma_out_within_reserve(reserve_in as int, reserve_out as int, amount_in as int);
        }
        Ok((numerator / denominator) as u64)
    }

    /// Full swap quote: takes the fee off, applies the constant product, and holds the payout
    /// against the cash reserve. A fee above the amount cannot be taken off and is refused.
    pub fn swap_quote(&self, amount_in: u64, input_mint: Pubkey) -> (result: Result<
        SwapQuote,
        OmnipairError,
    >)
        ensures
            result == self.swap_answer(amount_in, input_mint),
            result matches Ok(quote) ==> quote.fee_amount == self.fee(amount_in)
                && quote.amount_out == self.payout(amount_in, input_mint),
    {
        let is_token0_in = input_mint == self.token0;
        if !is_token0_in && input_mint != self.token1 {
            return Err(OmnipairError::InvalidQuoteParams);
        }
        let (reserve_in, reserve_out, cash_reserve_out) = if is_token0_in {
            (self.reserve0, self.reserve1, self.cash_reserve1)
        } else {
            (self.reserve1, self.reserve0, self.cash_reserve0)
        };
        if reserve_in == 0 || reserve_out == 0 {
            return Err(OmnipairError::InvalidReserves);
        }
        let bps: u16 = self.swap_fee_bps;
        proof {
            assert(amount_in * bps <= u64::MAX * u16::MAX) by (nonlinear_arith)
                requires
                    0 <= amount_in <= u64::MAX,
                    0 <= bps <= u16::MAX,
            ;
        }
        let nominal: u128 = match ceil_div(amount_in as u128 * bps as u128, BPS_DENOMINATOR) {
            Some(fee) => fee,
            None => return Err(OmnipairError::MathOverflow),
        };
        if nominal > amount_in as u128 {
            return Err(OmnipairError::MathOverflow);
        }
        let fee_amount: u64 = nominal as u64;
        let amount_out: u64 = match Self::calculate_amount_out(
            reserve_in,
            reserve_out,
            amount_in - fee_amount,
        ) {
            Ok(amount_out) => amount_out,
            Err(e) => return Err(e),
        };
        if amount_out > cash_reserve_out {
            return Err(OmnipairError::InsufficientCashReserve);
        }
        Ok(SwapQuote { amount_out, fee_amount })
    }
}

} // verus!
