//! The protocol's global laws, proved from the operation contracts.
//!
//! Each lemma states a property of the auction lifecycle over the same
//! spec functions the operations' contracts use, so the property holds of
//! every reachable state and every call.

use vstd::prelude::*;

use crate::denom::{spec_find_allowed_coin, Coin};
use crate::errors::ContractError;
use crate::execute::{
    effective_bid, min_required_bid, spec_bid_err, spec_claim_err, spec_reclaim_err,
    spec_settle_err, CallEngine,
};
use crate::state::CallOption;
use crate::types::OptionId;
use crate::vault::Vault;

verus! {

/// An accepted bid respects both floors and never lowers the recorded
/// bid: its effective amount reaches the current bid plus the minimum
/// increment in basis points, reaches the strike, and hence reaches the
/// current bid.  Together with the error branch of `CallEngine::bid`,
/// which leaves every state unchanged, this is the auction's acceptance
/// law: any bid violating either floor is rejected without effect.
pub proof fn lemma_bid_acceptance(
    g: CallEngine,
    vault: Vault,
    now: u64,
    caller: String,
    funds: Seq<Coin>,
    id: OptionId,
)
    requires
        spec_bid_err(g, vault, now, caller, funds, id) is None,
    ensures
        ({
            let c = g.opt(id);
            let coin = spec_find_allowed_coin(funds, g.config.allowed_denom@).unwrap();
            let eff = effective_bid(coin.amount, c.strike, caller@, c.writer_addr@);
            &&& g.has_option(id)
            &&& !c.settled
            &&& now <= c.expiration
            &&& eff >= min_required_bid(c.bid, g.config.min_bid_inc_bips)
            &&& eff >= c.strike
            &&& eff >= c.bid
        }),
{
    let c = g.opt(id);
    assert(c.bid * g.config.min_bid_inc_bips >= 0) by (nonlinear_arith);
    assert(c.bid * g.config.min_bid_inc_bips / 10000 >= 0);
}

/// A bid whose effective amount exactly equals the larger of the two
/// floors is accepted: the floors are inclusive.
pub proof fn lemma_minimum_bid_accepted(
    g: CallEngine,
    vault: Vault,
    now: u64,
    caller: String,
    funds: Seq<Coin>,
    id: OptionId,
)
    requires
        ({
            let c = g.opt(id);
            let coin = spec_find_allowed_coin(funds, g.config.allowed_denom@);
            &&& g.has_option(id)
            &&& coin is Some
            &&& !c.settled
            &&& now <= c.expiration
            &&& c.bid * g.config.min_bid_inc_bips <= u128::MAX
            &&& min_required_bid(c.bid, g.config.min_bid_inc_bips) <= u128::MAX
            &&& ({
                let eff = effective_bid(coin.unwrap().amount, c.strike, caller@, c.writer_addr@);
                &&& eff <= u128::MAX
                &&& eff == if min_required_bid(c.bid, g.config.min_bid_inc_bips) >= c.strike {
                    min_required_bid(c.bid, g.config.min_bid_inc_bips)
                } else {
                    c.strike as int
                }
            })
            &&& crate::vault::spec_redirect(vault, g.addr, c.asset_id, caller) is Ok
        }),
    ensures
        spec_bid_err(g, vault, now, caller, funds, id) is None,
{
}

/// Settlement is terminal: once an option is settled, a further
/// settlement always fails with the already-settled error, and so does a
/// reclaim by the writer.  Since both `settle_option` and `reclaim_asset`
/// ensure the record is settled after success, no option settles twice.
pub proof fn lemma_settled_is_terminal(
    g: CallEngine,
    vault: Vault,
    now: u64,
    caller: String,
    id: OptionId,
    withdraw: bool,
)
    requires
        g.has_option(id),
        g.opt(id).settled,
    ensures
        spec_settle_err(g, now, id) == Some(ContractError::OptionAlreadySettled(id)),
        g.opt(id).writer_addr@ == caller@ ==> spec_reclaim_err(g, vault, now, caller, id, withdraw)
            == Some(ContractError::OptionAlreadySettled(id)),
{
}

/// After a successful settlement, the very next state refuses both a
/// second settlement and a reclaim by the writer with the already-settled
/// error.
pub proof fn lemma_settlement_idempotent(
    g: CallEngine,
    g2: CallEngine,
    vault: Vault,
    now: u64,
    now2: u64,
    caller2: String,
    id: OptionId,
    withdraw: bool,
)
    requires
        spec_settle_err(g, now, id) is None,
        g.count as int == g.options@.len(),
        g2.count == g.count,
        g2.options@ == g.options@.update(id - 1, CallOption { settled: true, ..g.opt(id) }),
    ensures
        spec_settle_err(g2, now2, id) == Some(ContractError::OptionAlreadySettled(id)),
        g2.opt(id).writer_addr@ == caller2@ ==> spec_reclaim_err(
            g2,
            vault,
            now2,
            caller2,
            id,
            withdraw,
        ) == Some(ContractError::OptionAlreadySettled(id)),
{
    assert(g2.opt(id) == CallOption { settled: true, ..g.opt(id) });
}

/// A pending claim is exactly the spread: whenever a claim is recorded
/// for an option, the option is settled, it was won by someone, and the
/// claim equals `bid - strike`.
pub proof fn lemma_claim_is_spread(g: CallEngine, id: OptionId)
    requires
        g.wf(),
        g.has_option(id),
        g.claim_of(id) is Some,
    ensures
        g.opt(id).settled,
        g.opt(id).high_bidder is Some,
        g.claim_of(id).unwrap() == g.opt(id).bid - g.opt(id).strike,
{
    assert(crate::state::claim_ok(g.options@[id - 1], g.claims@[id - 1]));
}

/// A claim is payable exactly once: after a successful claim, the very
/// next state holds no claim for the option and refuses a repeated claim
/// by anyone.
pub proof fn lemma_claim_pays_once(
    g: CallEngine,
    g2: CallEngine,
    caller: String,
    caller2: String,
    id: OptionId,
)
    requires
        spec_claim_err(g, caller, id) is None,
        g2.count == g.count,
        g2.tokens@ == g.tokens@.update(id - 1, None::<String>),
        g2.claims@ == g.claims@.update(id - 1, None::<u128>),
        g.count as int == g.tokens@.len(),
        g.count as int == g.claims@.len(),
    ensures
        g2.claim_of(id) is None,
        spec_claim_err(g2, caller2, id) is Some,
{
}

/// Asset safety across the expiry→settlement window: accepting a bid
/// synchronously makes the bidder the asset's beneficial owner, so from
/// that moment a withdrawal attempt by anyone else — in particular the
/// writer — fails, whatever the clock says.  The writer therefore cannot
/// pull the asset out of the vault between losing the auction and
/// settlement.
pub proof fn lemma_no_withdrawal_after_bid(
    g0: CallEngine,
    v0: Vault,
    g: CallEngine,
    v: Vault,
    caller: String,
    funds: Seq<Coin>,
    id: OptionId,
    resp: crate::execute::BidResponse,
    later: u64,
    who: String,
)
    requires
        crate::execute::bid_effects(g0, v0, g, v, caller, funds, id, resp),
        who@ != caller@,
    ensures
        crate::vault::spec_withdraw(v, later, who, g0.opt(id).asset_id) == Err::<
            crate::types::AssetTransfer,
            ContractError,
        >(ContractError::Unauthorized),
{
}

/// The ledger invariant the auction maintains: an option records a high
/// bidder exactly while its bid is positive, and an accepted bid never
/// falls below the strike.
pub proof fn lemma_bidder_iff_positive_bid(g: CallEngine, id: OptionId)
    requires
        g.wf(),
        g.has_option(id),
    ensures
        (g.opt(id).high_bidder is Some) == (g.opt(id).bid > 0),
        g.opt(id).high_bidder is Some ==> g.opt(id).bid >= g.opt(id).strike,
{
    assert(crate::state::option_ok(g.options@[id - 1]));
}

} // verus!
