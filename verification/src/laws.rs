//! The engine's global guarantees, stated and proved over the spec functions
//! that the operations' contracts are written in.

use vstd::prelude::*;

use crate::state::AccountKey;
use crate::state::Bid;
use crate::state::ErrorCode;
use crate::state::EscrowPool;
use crate::state::Launch;
use crate::state::authority_gate_error;
use crate::state::bid_after_claim;
use crate::state::claim_error;
use crate::state::launch_after_claim;
use crate::state::launch_after_finalize;
use crate::state::solvent;
use crate::state::submit_error;

verus! {

/// Law: as long as a launch is solvent — and initialization establishes
/// solvency while every operation's contract preserves it and never
/// decreases the distributed total — the tokens distributed never exceed the
/// launch's total supply.
pub proof fn lemma_distributed_within_supply(launch: Launch, pool: EscrowPool)
    requires
        solvent(launch, pool),
    ensures
        launch.tokens_distributed <= launch.total_tokens,
{
}

/// Law: the launch transitions keep the pool solvent and never decrease the
/// distributed total. A claim moves `amount` out of the reward ledger and
/// onto the distributed total, provided the ledger covers it — which is
/// exactly when the escrow transfer primitive goes through — and the plain
/// finalize moves nothing.
pub proof fn lemma_transitions_preserve_solvency(launch: Launch, pool: EscrowPool, amount: u64)
    requires
        solvent(launch, pool),
        amount <= pool.reward_available,
    ensures
        solvent(
            launch_after_claim(launch, amount),
            EscrowPool { reward_available: (pool.reward_available - amount) as u64, ..pool },
        ),
        launch_after_claim(launch, amount).tokens_distributed >= launch.tokens_distributed,
        solvent(launch_after_finalize(launch), pool),
{
}

/// Law: a bid's claim flag transitions false to true at most once. A claim
/// is admitted only on an unclaimed bid, and the state it leaves behind —
/// the bid marked claimed, the launch still finalized — refuses every
/// further claim of that bid with `AlreadyClaimed`.
pub proof fn lemma_claim_at_most_once(launch: Launch, bid: Bid)
    requires
        claim_error(launch, bid) is None,
    ensures
        claim_error(launch_after_claim(launch, bid.allocation), bid_after_claim(bid)) == Some(
            ErrorCode::AlreadyClaimed,
        ),
{
}

/// Law: before the launch is finalized, every claim is refused with
/// `NotFinalized`, whatever the bid's allocation or claim status.
pub proof fn lemma_no_claim_before_finalize(launch: Launch, bid: Bid)
    requires
        !launch.is_finalized,
    ensures
        claim_error(launch, bid) == Some(ErrorCode::NotFinalized),
{
}

/// Law: finalization is one-way: neither a claim nor a repeated finalize
/// clears the flag once it is set (and the batch distribution sets it).
pub proof fn lemma_finalize_is_one_way(launch: Launch, amount: u64)
    requires
        launch.is_finalized,
    ensures
        launch_after_claim(launch, amount).is_finalized,
        launch_after_finalize(launch).is_finalized,
{
}

/// Law: after the launch is finalized, submitting a bid or recording an
/// allocation is refused with `LaunchFinalized`, whoever calls it.
pub proof fn lemma_finalize_blocks_mutation(launch: Launch, caller: AccountKey)
    requires
        launch.is_finalized,
    ensures
        submit_error(launch) == Some(ErrorCode::LaunchFinalized),
        authority_gate_error(launch, caller) == Some(ErrorCode::LaunchFinalized),
{
}

} // verus!
