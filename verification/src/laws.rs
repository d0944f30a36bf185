//! What holds of the library as a whole.

use crate::accounts::{signer, OmnipairSwapAccounts};
use crate::client::{OmnipairAmmClient, Quote, QuoteParams, SwapParams, SWAP_ACCOUNTS_LEN};
use crate::error::OmnipairError;
use crate::math::lemma_ceil_quotient_is_least;
use crate::pair::{lemma_account_holds_one_state, OmnipairPair};
use crate::program_address::{is_address, reserve_vault_seeds};
use crate::pubkey::{
    lemma_pubkey_ext, Pubkey, OMNIPAIR_PROGRAM_ID, SPL_TOKEN_PROGRAM_ID, TOKEN_2022_PROGRAM_ID,
};
use crate::swap::{
    constant_product_out, lemma_out_within_reserve, nominal_fee, SwapQuote, BPS_DENOMINATOR,
};
use vstd::prelude::*;

verus! {

/// The fee is at most the amount exactly when nothing is swapped or the rate is at most the whole.
/// It is never negative.
pub proof fn law_fee_is_within_amount(amount: u64, bps: int)
    requires
        0 <= bps,
    ensures
        nominal_fee(amount as int, bps) <= amount <==> amount == 0 || bps <= BPS_DENOMINATOR,
        0 <= nominal_fee(amount as int, bps),
{
    let d = BPS_DENOMINATOR as int;
    let a = amount as int;
    lemma_ceil_quotient_is_least(a * bps, d);
    assert(a * bps >= 0) by (nonlinear_arith)
        requires
            0 <= a,
            0 <= bps,
    ;
    assert(a * bps <= a * d <==> a == 0 || bps <= d) by (nonlinear_arith)
        requires
            0 <= a,
    ;
}

/// The fee is zero exactly when nothing is swapped or the rate is zero.
pub proof fn law_fee_is_zero_only_for_nothing(amount: u64, bps: int)
    requires
        0 <= bps,
    ensures
        nominal_fee(amount as int, bps) == 0 <==> amount == 0 || bps == 0,
{
    let a = amount as int;
    assert(a * bps == 0 <==> a == 0 || bps == 0) by (nonlinear_arith);
    assert(a * bps >= 0) by (nonlinear_arith)
        requires
            0 <= a,
            0 <= bps,
    ;
    lemma_ceil_quotient_is_least(a * bps, BPS_DENOMINATOR as int);
}

/// A larger amount owes no smaller fee. At a rate of at most the whole, no less of a larger amount
/// is left once the fee is off.
pub proof fn law_fee_and_rest_grow(smaller: u64, larger: u64, bps: int)
    requires
        smaller <= larger,
        0 <= bps,
    ensures
        nominal_fee(smaller as int, bps) <= nominal_fee(larger as int, bps),
        bps <= BPS_DENOMINATOR ==> smaller - nominal_fee(smaller as int, bps) <= larger
            - nominal_fee(larger as int, bps),
{
    let d = BPS_DENOMINATOR as int;
    let a = smaller as int;
    let b = larger as int;
    lemma_ceil_quotient_is_least(a * bps, d);
    lemma_ceil_quotient_is_least(b * bps, d);
    let fee_a = nominal_fee(a, bps);
    let fee_b = nominal_fee(b, bps);
    assert(a * bps <= b * bps) by (nonlinear_arith)
        requires
            a <= b,
            0 <= bps,
    ;
    assert(a * bps <= fee_b * d);
    if bps <= d {
        assert(b * bps <= (fee_a + (b - a)) * d) by (nonlinear_arith)
            requires
                a * bps <= fee_a * d,
                a <= b,
                bps <= d,
        ;
    }
}

/// The product of the reserves never falls, and the payout is as large as that allows: one unit
/// more would make the product fall.
pub proof fn law_product_never_falls(reserve_in: int, reserve_out: int, amount_in: int)
    requires
        0 <= reserve_in,
        0 <= reserve_out,
        0 <= amount_in,
        reserve_in + amount_in > 0,
    ensures
        ({
            let amount_out = constant_product_out(reserve_in, reserve_out, amount_in);
            &&& (reserve_in + amount_in) * (reserve_out - amount_out) >= reserve_in * reserve_out
            &&& (reserve_in + amount_in) * (reserve_out - (amount_out + 1)) < reserve_in
                * reserve_out
        }),
{
    let d = reserve_in + amount_in;
    let n = amount_in * reserve_out;
    let q = n / d;
    let r = n % d;
    vstd::arithmetic::div_mod::lemma_fundamental_div_mod(n, d);
    assert(d * (reserve_out - q) == reserve_in * reserve_out + r) by (nonlinear_arith)
        requires
            n == d * q + r,
            n == amount_in * reserve_out,
            d == reserve_in + amount_in,
    ;
    assert(d * (reserve_out - (q + 1)) == d * (reserve_out - q) - d) by (nonlinear_arith);
}

/// A larger amount in pays out no less.
pub proof fn law_payout_grows(reserve_in: int, reserve_out: int, smaller: int, larger: int)
    requires
        0 <= reserve_in,
        0 <= reserve_out,
        0 <= smaller <= larger,
        reserve_in + smaller > 0,
    ensures
        constant_product_out(reserve_in, reserve_out, smaller) <= constant_product_out(
            reserve_in,
            reserve_out,
            larger,
        ),
{
    let p = constant_product_out(reserve_in, reserve_out, smaller);
    let q = constant_product_out(reserve_in, reserve_out, larger);
    law_product_never_falls(reserve_in, reserve_out, smaller);
    law_product_never_falls(reserve_in, reserve_out, larger);
    lemma_out_within_reserve(reserve_in, reserve_out, smaller);
    assert(p <= q) by (nonlinear_arith)
        requires
            (reserve_in + smaller) * (reserve_out - p) >= reserve_in * reserve_out,
            (reserve_in + larger) * (reserve_out - (q + 1)) < reserve_in * reserve_out,
            0 <= reserve_in,
            0 <= p <= reserve_out,
            0 <= smaller <= larger,
    ;
}

/// Swapping there and straight back, even free of charge, returns no more than went in.
pub proof fn law_round_trip_gains_nothing(reserve_in: int, reserve_out: int, amount_in: int)
    requires
        0 <= reserve_in,
        0 < reserve_out,
        0 <= amount_in,
        reserve_in + amount_in > 0,
    ensures
        ({
            let amount_out = constant_product_out(reserve_in, reserve_out, amount_in);
            constant_product_out(
                reserve_out - amount_out,
                reserve_in + amount_in,
                amount_out,
            ) <= amount_in
        }),
{
    let out = constant_product_out(reserve_in, reserve_out, amount_in);
    let d = reserve_in + amount_in;
    let n = amount_in * reserve_out;
    vstd::arithmetic::div_mod::lemma_fundamental_div_mod(n, d);
    let back = (out * d) / reserve_out;
    vstd::arithmetic::div_mod::lemma_fundamental_div_mod(out * d, reserve_out);
    let r = n % d;
    let s = (out * d) % reserve_out;
    assert(back <= amount_in) by (nonlinear_arith)
        requires
            n == d * out + r,
            0 <= r < d,
            n == amount_in * reserve_out,
            out * d == reserve_out * back + s,
            0 <= s < reserve_out,
    ;
}

/// A swap that is answered pays out less than the reserve and no more than the cash, and is
/// charged no more than goes in.
pub proof fn law_quote_is_covered(pair: OmnipairPair, amount_in: u64, mint: Pubkey, quote: SwapQuote)
    requires
        pair.swap_answer(amount_in, mint) == Ok::<SwapQuote, OmnipairError>(quote),
    ensures
        quote.amount_out < pair.reserve_out(mint),
        quote.amount_out <= pair.cash_out(mint),
        quote.fee_amount <= amount_in,
{
    lemma_out_within_reserve(
        pair.reserve_in(mint) as int,
        pair.reserve_out(mint) as int,
        amount_in - pair.fee(amount_in),
    );
}

/// A swap that is answered is charged the fee that its rate owes, and is free of charge exactly
/// when nothing is swapped or the rate is zero.
pub proof fn law_answered_swap_is_charged(
    pair: OmnipairPair,
    amount_in: u64,
    mint: Pubkey,
    quote: SwapQuote,
)
    requires
        pair.swap_answer(amount_in, mint) == Ok::<SwapQuote, OmnipairError>(quote),
    ensures
        quote.fee_amount == nominal_fee(amount_in as int, pair.swap_fee_bps as int),
        quote.fee_amount == 0 <==> amount_in == 0 || pair.swap_fee_bps == 0,
{
    law_fee_is_within_amount(amount_in, pair.swap_fee_bps as int);
    law_fee_is_zero_only_for_nothing(amount_in, pair.swap_fee_bps as int);
}

/// The fee only ever lowers what a swap pays out.
pub proof fn law_fee_lowers_payout(pair: OmnipairPair, amount_in: u64, mint: Pubkey)
    requires
        pair.reserve_in(mint) > 0,
        pair.fee(amount_in) <= amount_in,
    ensures
        pair.payout(amount_in, mint) <= constant_product_out(
            pair.reserve_in(mint) as int,
            pair.reserve_out(mint) as int,
            amount_in as int,
        ),
{
    law_payout_grows(
        pair.reserve_in(mint) as int,
        pair.reserve_out(mint) as int,
        amount_in - pair.fee(amount_in),
        amount_in as int,
    );
}

/// A larger amount in is quoted no smaller payout and no smaller fee.
pub proof fn law_quote_grows(
    pair: OmnipairPair,
    mint: Pubkey,
    smaller: u64,
    larger: u64,
    small_quote: SwapQuote,
    large_quote: SwapQuote,
)
    requires
        smaller <= larger,
        pair.swap_answer(smaller, mint) == Ok::<SwapQuote, OmnipairError>(small_quote),
        pair.swap_answer(larger, mint) == Ok::<SwapQuote, OmnipairError>(large_quote),
    ensures
        small_quote.amount_out <= large_quote.amount_out,
        small_quote.fee_amount <= large_quote.fee_amount,
{
    let reserve_in = pair.reserve_in(mint) as int;
    let reserve_out = pair.reserve_out(mint) as int;
    let bps = pair.swap_fee_bps as int;
    // A rate above the whole leaves only swaps of nothing.
    law_fee_is_within_amount(smaller, bps);
    law_fee_is_within_amount(larger, bps);
    law_fee_and_rest_grow(smaller, larger, bps);
    law_payout_grows(
        reserve_in,
        reserve_out,
        smaller - pair.fee(smaller),
        larger - pair.fee(larger),
    );
    lemma_out_within_reserve(reserve_in, reserve_out, smaller - pair.fee(smaller));
    lemma_out_within_reserve(reserve_in, reserve_out, larger - pair.fee(larger));
}

/// For a swap of nothing, or at a rate of at most the whole, the arithmetic of a quote never fails:
/// a swap of one of the pool's tokens between reserves that are not empty is answered whenever the
/// cash covers it.
pub proof fn law_quote_is_owed(pair: OmnipairPair, amount_in: u64, mint: Pubkey)
    requires
        amount_in == 0 || pair.swap_fee_bps <= BPS_DENOMINATOR,
        mint == pair.token0 || mint == pair.token1,
        pair.reserve0 > 0,
        pair.reserve1 > 0,
    ensures
        pair.swap_answer(amount_in, mint) is Ok <==> pair.payout(amount_in, mint) <= pair.cash_out(
            mint,
        ),
        pair.swap_answer(amount_in, mint) matches Err(e) ==> e
            == OmnipairError::InsufficientCashReserve,
{
    law_fee_is_within_amount(amount_in, pair.swap_fee_bps as int);
}

/// Only the two tokens of a pool can be sold to it.
pub proof fn law_only_the_tokens_are_taken(pair: OmnipairPair, amount_in: u64, mint: Pubkey)
    ensures
        pair.swap_answer(amount_in, mint) == Err::<SwapQuote, OmnipairError>(
            OmnipairError::InvalidQuoteParams,
        ) <==> mint != pair.token0 && mint != pair.token1,
{
}

/// How a sale is answered, by the fields of the pool. `reserve_in` and `reserve_out` are the
/// reserves of the token sold and of the token paid out, and `cash` is the cash of the token paid
/// out; the cash of the token sold plays no part.
///
/// `fee` is the rate's share of the amount rounded up, told by the multiples of a basis point that
/// it lies between. `out` is the largest payout that does not let the product of the reserves fall
/// when what is left of the amount comes in.
pub proof fn law_sale_is_answered_by_the_fields(
    pair: OmnipairPair,
    amount_in: u64,
    mint: Pubkey,
    reserve_in: u64,
    reserve_out: u64,
    cash: u64,
    fee: int,
    out: int,
)
    requires
        mint == pair.token0 && reserve_in == pair.reserve0 && reserve_out == pair.reserve1 && cash
            == pair.cash_reserve1 || mint != pair.token0 && mint == pair.token1 && reserve_in
            == pair.reserve1 && reserve_out == pair.reserve0 && cash == pair.cash_reserve0,
        amount_in * pair.swap_fee_bps <= fee * 10_000 < amount_in * pair.swap_fee_bps + 10_000,
        fee <= amount_in ==> (reserve_in + (amount_in - fee)) * (reserve_out - out) >= reserve_in
            * reserve_out,
        fee <= amount_in && reserve_in > 0 ==> (reserve_in + (amount_in - fee)) * (reserve_out - (
        out + 1)) < reserve_in * reserve_out,
    ensures
        pair.swap_answer(amount_in, mint) == Err::<SwapQuote, OmnipairError>(
            OmnipairError::InvalidReserves,
        ) <==> reserve_in == 0 || reserve_out == 0,
        pair.swap_answer(amount_in, mint) == Err::<SwapQuote, OmnipairError>(
            OmnipairError::MathOverflow,
        ) <==> reserve_in > 0 && reserve_out > 0 && amount_in > 0 && pair.swap_fee_bps > 10_000,
        pair.swap_answer(amount_in, mint) == Err::<SwapQuote, OmnipairError>(
            OmnipairError::InsufficientCashReserve,
        ) <==> reserve_in > 0 && reserve_out > 0 && (amount_in == 0 || pair.swap_fee_bps <= 10_000)
            && out > cash,
        pair.swap_answer(amount_in, mint) is Ok <==> reserve_in > 0 && reserve_out > 0 && (amount_in
            == 0 || pair.swap_fee_bps <= 10_000) && out <= cash,
        pair.swap_answer(amount_in, mint) matches Ok(quote) ==> quote.amount_out == out
            && quote.fee_amount == fee,
{
    let bps = pair.swap_fee_bps as int;
    let a = amount_in as int;
    law_fee_is_within_amount(amount_in, bps);
    lemma_ceil_quotient_is_least(a * bps, 10_000);
    let charged = nominal_fee(a, bps);
    assert(charged == fee) by {
        assert(a * bps <= fee * 10_000);
        assert(charged <= fee);
        if charged < fee {
            assert(charged * 10_000 <= (fee - 1) * 10_000);
        }
    }
    if fee <= a && reserve_in > 0 {
        let x = reserve_in as int;
        let y = reserve_out as int;
        let net = a - fee;
        law_product_never_falls(x, y, net);
        lemma_out_within_reserve(x, y, net);
        let paid = constant_product_out(x, y, net);
        let d = x + net;
        assert(paid == out) by (nonlinear_arith)
            requires
                d > 0,
                d * (y - paid) >= x * y,
                d * (y - (paid + 1)) < x * y,
                d * (y - out) >= x * y,
                d * (y - (out + 1)) < x * y,
        ;
    }
}

/// Nothing but the tokens, the rate, the two reserves and the cash of the token paid out has a part
/// in the answer: pools that agree in these answer alike.
pub proof fn law_answer_rests_on_few_fields(
    one: OmnipairPair,
    other: OmnipairPair,
    amount_in: u64,
    mint: Pubkey,
)
    requires
        one.swap_fee_bps == other.swap_fee_bps,
        one.reserve0 == other.reserve0,
        one.reserve1 == other.reserve1,
        mint == one.token0 && mint == other.token0 && one.cash_reserve1 == other.cash_reserve1
            || mint != one.token0 && mint != other.token0 && mint == one.token1 && mint
            == other.token1 && one.cash_reserve0 == other.cash_reserve0,
    ensures
        one.swap_answer(amount_in, mint) == other.swap_answer(amount_in, mint),
{
}

/// Cash admits a swap and does not price it: a pool with more cash gives the answers that the same
/// pool with less cash gives, and answers besides only what was refused for want of cash.
pub proof fn law_cash_only_admits(
    poorer: OmnipairPair,
    richer: OmnipairPair,
    amount_in: u64,
    mint: Pubkey,
)
    requires
        richer == (OmnipairPair {
            cash_reserve0: richer.cash_reserve0,
            cash_reserve1: richer.cash_reserve1,
            ..poorer
        }),
        poorer.cash_reserve0 <= richer.cash_reserve0,
        poorer.cash_reserve1 <= richer.cash_reserve1,
    ensures
        poorer.swap_answer(amount_in, mint) == richer.swap_answer(amount_in, mint)
            || poorer.swap_answer(amount_in, mint) == Err::<SwapQuote, OmnipairError>(
            OmnipairError::InsufficientCashReserve,
        ),
{
}

/// The pool with its two tokens exchanged.
pub open spec fn mirrored(pair: OmnipairPair) -> OmnipairPair {
    OmnipairPair {
        token0: pair.token1,
        token1: pair.token0,
        reserve0: pair.reserve1,
        reserve1: pair.reserve0,
        cash_reserve0: pair.cash_reserve1,
        cash_reserve1: pair.cash_reserve0,
        ..pair
    }
}

/// Neither token is favoured: a pool of two different tokens and its mirror image answer alike.
pub proof fn law_quotes_are_symmetric(pair: OmnipairPair, amount_in: u64, mint: Pubkey)
    requires
        pair.token0 != pair.token1,
    ensures
        mirrored(pair).swap_answer(amount_in, mint) == pair.swap_answer(amount_in, mint),
{
}

/// A quote is given exactly when the amount in is the fixed side and the pool answers the swap. A
/// request for a fixed amount out is refused as such, and a refusal of the pool is passed on.
pub proof fn law_quote_follows_pool(client: OmnipairAmmClient, params: QuoteParams)
    ensures
        client.quote_answer(params) is Ok <==> params.swap_mode is ExactIn
            && client.state.swap_answer(params.amount, params.input_mint) is Ok,
        client.quote_answer(params) matches Ok(quote) ==> {
            &&& client.state.swap_answer(params.amount, params.input_mint) == Ok::<
                SwapQuote,
                OmnipairError,
            >(SwapQuote { amount_out: quote.out_amount, fee_amount: quote.fee_amount })
            &&& quote.in_amount == params.amount
            &&& quote.fee_mint == params.input_mint
        },
        params.swap_mode is ExactOut ==> client.quote_answer(params) == Err::<
            Quote,
            OmnipairError,
        >(OmnipairError::ExactOutNotSupported),
        params.swap_mode is ExactIn ==> (client.state.swap_answer(
            params.amount,
            params.input_mint,
        ) matches Err(e) ==> client.quote_answer(params) == Err::<Quote, OmnipairError>(e)),
{
}

/// Every quote reports the rate of the pool, in ten thousandths, and that rate is what was charged:
/// the fee is the reported share of the amount in, rounded up.
pub proof fn law_quote_reports_the_rate(client: OmnipairAmmClient, params: QuoteParams, quote: Quote)
    requires
        client.quote_answer(params) == Ok::<Quote, OmnipairError>(quote),
    ensures
        quote.fee_pct.mantissa == client.state.swap_fee_bps,
        quote.fee_pct.scale == 4,
        quote.in_amount * quote.fee_pct.mantissa <= quote.fee_amount * 10_000,
        quote.fee_amount * 10_000 < quote.in_amount * quote.fee_pct.mantissa + 10_000,
{
    let a = params.amount as int;
    let bps = client.state.swap_fee_bps as int;
    law_answered_swap_is_charged(
        client.state,
        params.amount,
        params.input_mint,
        SwapQuote { amount_out: quote.out_amount, fee_amount: quote.fee_amount },
    );
    lemma_ceil_quotient_is_least(a * bps, 10_000);
    let fee = nominal_fee(a, bps);
    if fee * 10_000 >= a * bps + 10_000 {
        assert(a * bps <= (fee - 1) * 10_000);
    }
}

/// Nothing but the amount, the token sold and the mode has a part in a quote, and of the client
/// nothing but the fields that the pool's answer rests on.
pub proof fn law_quote_rests_on_few_fields(
    one: OmnipairAmmClient,
    other: OmnipairAmmClient,
    params: QuoteParams,
    asked: QuoteParams,
)
    requires
        params.amount == asked.amount,
        params.input_mint == asked.input_mint,
        params.swap_mode == asked.swap_mode,
        one.state.token0 == other.state.token0,
        one.state.token1 == other.state.token1,
        one.state.swap_fee_bps == other.state.swap_fee_bps,
        one.state.reserve0 == other.state.reserve0,
        one.state.reserve1 == other.state.reserve1,
        one.state.token0 == params.input_mint || one.state.cash_reserve0
            == other.state.cash_reserve0,
        one.state.token0 != params.input_mint || one.state.cash_reserve1
            == other.state.cash_reserve1,
    ensures
        one.quote_answer(params) == other.quote_answer(asked),
{
}

/// A swap names as many accounts as the client announces, and only the user signs.
pub proof fn law_only_the_user_signs(accounts: OmnipairSwapAccounts)
    ensures
        accounts.metas().len() == SWAP_ACCOUNTS_LEN,
        accounts.metas()[9] == signer(accounts.user),
        forall|i: int|
            0 <= i < accounts.metas().len() && (#[trigger] accounts.metas()[i]).is_signer ==> i
                == 9,
{
}

/// The list of an instruction names the given accounts in the order of the program, writes the
/// pool, its rate model, the vaults and what is the user's, and only reads the others.
pub proof fn law_instruction_lists_the_accounts(accounts: OmnipairSwapAccounts)
    ensures
        accounts.metas().len() == 14,
        accounts.metas()[0].pubkey == accounts.pair,
        accounts.metas()[1].pubkey == accounts.rate_model,
        accounts.metas()[2].pubkey == accounts.futarchy_authority,
        accounts.metas()[3].pubkey == accounts.token_in_vault,
        accounts.metas()[4].pubkey == accounts.token_out_vault,
        accounts.metas()[5].pubkey == accounts.user_token_in_account,
        accounts.metas()[6].pubkey == accounts.user_token_out_account,
        accounts.metas()[7].pubkey == accounts.token_in_mint,
        accounts.metas()[8].pubkey == accounts.token_out_mint,
        accounts.metas()[9].pubkey == accounts.user,
        accounts.metas()[10].pubkey == accounts.token_program,
        accounts.metas()[11].pubkey == accounts.token_2022_program,
        accounts.metas()[12].pubkey == accounts.event_authority,
        accounts.metas()[13].pubkey == accounts.omnipair_program,
        forall|i: int|
            0 <= i < 14 ==> ((#[trigger] accounts.metas()[i]).is_writable <==> i == 0 || i == 1 || 3
                <= i <= 6 || i == 9),
        forall|i: int| 0 <= i < 14 ==> ((#[trigger] accounts.metas()[i]).is_signer <==> i == 9),
{
}

/// Whatever the state of the pool, a swap of token 0 brings token 0 into its vault and takes token
/// 1 out of its own, and any other swap the other way round. The rest of the list is the pool's own
/// accounts, what the user supplies, and the three programs.
pub proof fn law_swap_names_the_pools_accounts(client: OmnipairAmmClient, params: SwapParams)
    ensures
        ({
            let metas = client.swap_accounts(params).metas();
            &&& metas.len() == 14
            &&& params.source_mint == client.state.token0 ==> {
                &&& metas[3].pubkey == client.derived.reserve_vault0
                &&& metas[4].pubkey == client.derived.reserve_vault1
                &&& metas[7].pubkey == client.state.token0
                &&& metas[8].pubkey == client.state.token1
            }
            &&& params.source_mint != client.state.token0 ==> {
                &&& metas[3].pubkey == client.derived.reserve_vault1
                &&& metas[4].pubkey == client.derived.reserve_vault0
                &&& metas[7].pubkey == client.state.token1
                &&& metas[8].pubkey == client.state.token0
            }
            &&& metas[0].pubkey == client.pair_key
            &&& metas[1].pubkey == client.state.rate_model
            &&& metas[2].pubkey == client.derived.futarchy_authority
            &&& metas[5].pubkey == params.source_token_account
            &&& metas[6].pubkey == params.destination_token_account
            &&& metas[9].pubkey == params.token_transfer_authority
            &&& metas[10].pubkey.bytes == SPL_TOKEN_PROGRAM_ID
            &&& metas[11].pubkey.bytes == TOKEN_2022_PROGRAM_ID
            &&& metas[12].pubkey == client.derived.event_authority
            &&& metas[13].pubkey.bytes == OMNIPAIR_PROGRAM_ID
        }),
{
}

/// A swap of one of the pool's tokens names that token as the one that comes in, and the other one
/// as the one that goes out.
pub proof fn law_token_in_is_the_source(client: OmnipairAmmClient, params: SwapParams)
    requires
        params.source_mint == client.state.token0 || params.source_mint == client.state.token1,
    ensures
        ({
            let metas = client.swap_accounts(params).metas();
            &&& metas[7].pubkey == params.source_mint
            &&& metas[8].pubkey == client.state.token0 || metas[8].pubkey == client.state.token1
            &&& metas[8].pubkey == params.source_mint ==> client.state.token0
                == client.state.token1
        }),
{
}

/// Neither what the pool holds nor the token asked for has a part in the list: clients of the same
/// pool, with the same tokens and rate model, list the same accounts for the same user.
pub proof fn law_list_rests_on_few_fields(
    one: OmnipairAmmClient,
    other: OmnipairAmmClient,
    params: SwapParams,
    asked: SwapParams,
)
    requires
        one.pair_key == other.pair_key,
        one.derived == other.derived,
        one.state.token0 == other.state.token0,
        one.state.token1 == other.state.token1,
        one.state.rate_model == other.state.rate_model,
        params.source_mint == asked.source_mint,
        params.source_token_account == asked.source_token_account,
        params.destination_token_account == asked.destination_token_account,
        params.token_transfer_authority == asked.token_transfer_authority,
    ensures
        one.swap_accounts(params).metas() == other.swap_accounts(asked).metas(),
{
}

/// The vaults that a swap names are those of the mints that it names.
pub proof fn law_vaults_match_mints(client: OmnipairAmmClient, params: SwapParams)
    requires
        client.well_formed(),
    ensures
        is_address(
            client.swap_accounts(params).token_in_vault,
            reserve_vault_seeds(client.pair_key, client.swap_accounts(params).token_in_mint),
        ),
        is_address(
            client.swap_accounts(params).token_out_vault,
            reserve_vault_seeds(client.pair_key, client.swap_accounts(params).token_out_mint),
        ),
{
}

/// A swap of one token names the mints and vaults of a swap of the other, exchanged, and beyond
/// these and what the user supplies the same accounts.
pub proof fn law_directions_are_exchanged(
    client: OmnipairAmmClient,
    there: SwapParams,
    back: SwapParams,
)
    requires
        there.source_mint == client.state.token0,
        back.source_mint != client.state.token0,
    ensures
        ({
            let a = client.swap_accounts(there);
            let b = client.swap_accounts(back);
            b == OmnipairSwapAccounts {
                token_in_vault: a.token_out_vault,
                token_out_vault: a.token_in_vault,
                token_in_mint: a.token_out_mint,
                token_out_mint: a.token_in_mint,
                user_token_in_account: back.source_token_account,
                user_token_out_account: back.destination_token_account,
                user: back.token_transfer_authority,
                ..a
            }
        }),
{
}

/// The account determines the client: reading it anew, at once or in an update, gives the client
/// that reading it from scratch gives.
pub proof fn law_account_determines_client(
    key: Pubkey,
    data: Seq<u8>,
    one: OmnipairAmmClient,
    other: OmnipairAmmClient,
)
    requires
        one.read_from(key, data),
        other.read_from(key, data),
    ensures
        one == other,
{
    lemma_account_holds_one_state(data, one.state, other.state);
    lemma_pubkey_ext(one.derived.reserve_vault0, other.derived.reserve_vault0);
    lemma_pubkey_ext(one.derived.reserve_vault1, other.derived.reserve_vault1);
    lemma_pubkey_ext(one.derived.futarchy_authority, other.derived.futarchy_authority);
    lemma_pubkey_ext(one.derived.event_authority, other.derived.event_authority);
}

} // verus!
