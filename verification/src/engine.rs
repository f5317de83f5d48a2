//! The settlement operations: one verified function per host transaction.
//!
//! The host executes each operation as an atomic, serialized transaction: it
//! resolves the accounts an operation touches, checks the signer, and rolls
//! the whole transaction back when the escrow transfer primitive fails. The
//! conditions the host establishes before an operation runs stand here as
//! `requires`; everything an operation decides and changes stands in its
//! `ensures`.

use vstd::prelude::*;

use crate::digest::digest_of;
use crate::digest::proof_digest;
use crate::state::AccountKey;
use crate::state::AiProcessingStarted;
use crate::state::AllocationRecorded;
use crate::state::Bid;
use crate::state::ErrorCode;
use crate::state::EscrowPool;
use crate::state::Launch;
use crate::state::LaunchFinalized;
use crate::state::TokenAccount;
use crate::state::TokensClaimed;
use crate::state::authority_gate_error;
use crate::state::bid_after_claim;
use crate::state::bid_after_record;
use crate::state::claim_error;
use crate::state::credited;
use crate::state::distribute_error;
use crate::state::launch_after_claim;
use crate::state::launch_after_finalize;
use crate::state::solvent;
use crate::state::submit_error;
use crate::state::sum_amounts;
use vstd::pervasive::VecAdditionalExecFns;

verus! {

impl EscrowPool {
    /// Escrow transfer primitive, inbound: moves `amount` payment tokens from
    /// a bidder's account into the pool. The primitive is atomic and
    /// all-or-nothing; the host aborts the enclosing transaction when it
    /// would fail, so it is specified only where it succeeds: the source
    /// account covers the amount and the pool's ledger does not overflow.
    pub fn collect_payment(&mut self, from: &mut TokenAccount, amount: u64)
        requires
            amount <= old(from).balance,
            old(self).payment_collected + amount <= u64::MAX,
        ensures
            *final(self) == (EscrowPool {
                payment_collected: (old(self).payment_collected + amount) as u64,
                ..*old(self)
            }),
            *final(from) == (TokenAccount {
                balance: (old(from).balance - amount) as u64,
                ..*old(from)
            }),
    {
        from.balance = from.balance - amount;
        self.payment_collected = self.payment_collected + amount;
    }

    /// Escrow transfer primitive, outbound: moves `amount` reward tokens from
    /// the pool to a destination account, signed by the launch's own derived
    /// authority. Specified only where the primitive succeeds: the reward
    /// ledger covers the amount and the destination does not overflow.
    pub fn pay_reward(&mut self, to: &mut TokenAccount, amount: u64)
        requires
            amount <= old(self).reward_available,
            old(to).balance + amount <= u64::MAX,
        ensures
            *final(self) == (EscrowPool {
                reward_available: (old(self).reward_available - amount) as u64,
                ..*old(self)
            }),
            *final(to) == credited(*old(to), amount),
    {
        self.reward_available = self.reward_available - amount;
        to.balance = to.balance + amount;
    }
}

/// Creates the singleton launch record and the model of its pooled escrow
/// account.
///
/// The host creates the launch's storage exactly once (a second creation
/// fails at the storage layer before the engine runs) and provisions the
/// pool with the launch's declared reward supply; the pool model records
/// that provision, with no payment collected yet, so the launch starts
/// solvent.
pub fn initialize_launch(
    authority: AccountKey,
    mint: AccountKey,
    launch_pool: AccountKey,
    total_tokens: u64,
    max_allocation: u64,
    bump: u8,
) -> (r: (Launch, EscrowPool))
    ensures
        r.0 == (Launch {
            authority,
            mint,
            launch_pool,
            total_tokens,
            max_allocation,
            tokens_distributed: 0,
            is_finalized: false,
            bump,
        }),
        r.1 == (EscrowPool { payment_collected: 0, reward_available: total_tokens }),
        solvent(r.0, r.1),
{
    let launch = Launch {
        authority,
        mint,
        launch_pool,
        total_tokens,
        max_allocation,
        tokens_distributed: 0,
        is_finalized: false,
        bump,
    };
    let pool = EscrowPool { payment_collected: 0, reward_available: total_tokens };
    (launch, pool)
}

/// Admits a bid: escrows `amount` payment tokens from the bidder's account
/// into the pool and creates the bid record holding the encrypted payload.
/// No new bids are admitted once the launch is finalized. The transfer is
/// atomic with record creation: on refusal nothing moves and no record is
/// created.
///
/// The host checks before the engine runs that `from` is the signing
/// bidder's account for the launch's token type, and that the destination is
/// the launch's pool; those checks stand as `requires`, as does success of
/// the escrow transfer primitive on the admitting path.
pub fn submit_encrypted_bid(
    launch: &Launch,
    from: &mut TokenAccount,
    pool: &mut EscrowPool,
    bidder: AccountKey,
    encrypted_bid: Vec<u8>,
    amount: u64,
) -> (r: Result<Bid, ErrorCode>)
    requires
        old(from).owner == bidder,
        old(from).mint == launch.mint,
        submit_error(*launch) is None ==> amount <= old(from).balance,
        submit_error(*launch) is None ==> old(pool).payment_collected + amount <= u64::MAX,
    ensures
        match submit_error(*launch) {
            Some(e) => {
                &&& r == Err::<Bid, ErrorCode>(e)
                &&& *final(from) == *old(from)
                &&& *final(pool) == *old(pool)
            },
            None => {
                &&& r matches Ok(bid)
                &&& bid.bidder == bidder
                &&& bid.encrypted_data@ == encrypted_bid@
                &&& !bid.is_processed
                &&& bid.allocation == 0
                &&& !bid.is_claimed
                &&& *final(from) == (TokenAccount {
                    balance: (old(from).balance - amount) as u64,
                    ..*old(from)
                })
                &&& *final(pool) == (EscrowPool {
                    payment_collected: (old(pool).payment_collected + amount) as u64,
                    ..*old(pool)
                })
            },
        },
{
    if launch.is_finalized {
        return Err(ErrorCode::LaunchFinalized);
    }
    pool.collect_payment(from, amount);
    Ok(
        Bid {
            bidder,
            encrypted_data: encrypted_bid,
            is_processed: false,
            allocation: 0,
            is_claimed: false,
        },
    )
}

/// Announces that the external allocation process has started. The engine
/// decides nothing here; it produces the audit event for the timestamp the
/// host's clock supplies.
pub fn run_ai_allocation(timestamp: i64) -> (e: AiProcessingStarted)
    ensures
        e.timestamp == timestamp,
{
    AiProcessingStarted { timestamp }
}

/// Records a winning allocation into a bid: authority-only, and only before
/// finalization. Overwrites the bid's allocation and marks it processed; the
/// engine trusts the authority's signature entirely and verifies nothing
/// about where the amount came from.
pub fn record_allocation(
    launch: &Launch,
    bid: &mut Bid,
    caller: AccountKey,
    amount: u64,
) -> (r: Result<AllocationRecorded, ErrorCode>)
    ensures
        match authority_gate_error(*launch, caller) {
            Some(e) => {
                &&& r == Err::<AllocationRecorded, ErrorCode>(e)
                &&& *final(bid) == *old(bid)
            },
            None => {
                &&& r == Ok::<AllocationRecorded, ErrorCode>(AllocationRecorded {
                    bidder: old(bid).bidder,
                    amount,
                })
                &&& *final(bid) == bid_after_record(*old(bid), amount)
            },
        },
{
    if launch.is_finalized {
        return Err(ErrorCode::LaunchFinalized);
    }
    if caller != launch.authority {
        return Err(ErrorCode::Unauthorized);
    }
    bid.allocation = amount;
    bid.is_processed = true;
    Ok(AllocationRecorded { bidder: bid.bidder, amount })
}

/// Marks the launch finalized: authority-only, one-way, at most once. No
/// tokens move; the flip only closes bidding and allocation edits and opens
/// claiming. The event carries an all-zero placeholder digest, since this
/// variant receives no allocation proof.
pub fn finalize_launch(launch: &mut Launch, caller: AccountKey) -> (r: Result<
    LaunchFinalized,
    ErrorCode,
>)
    ensures
        final(launch).tokens_distributed == old(launch).tokens_distributed,
        match authority_gate_error(*old(launch), caller) {
            Some(e) => {
                &&& r == Err::<LaunchFinalized, ErrorCode>(e)
                &&& *final(launch) == *old(launch)
            },
            None => {
                &&& r matches Ok(e)
                &&& e.proof_hash@ == Seq::new(32, |i: int| 0u8)
                &&& *final(launch) == launch_after_finalize(*old(launch))
            },
        },
{
    if launch.is_finalized {
        return Err(ErrorCode::LaunchFinalized);
    }
    if caller != launch.authority {
        return Err(ErrorCode::Unauthorized);
    }
    launch.is_finalized = true;
    let proof_hash: [u8; 32] = [0u8; 32];
    proof {
        assert(proof_hash@ =~= Seq::new(32, |i: int| 0u8));
    }
    Ok(LaunchFinalized { proof_hash })
}

/// Pays out a bidder's own recorded allocation, exactly once, after
/// finalization: moves the allocation from the pool to the bidder's account,
/// marks the bid claimed and adds the amount to the distributed total, all
/// as one atomic step.
///
/// The host resolves the bid from the signing bidder's key and checks that
/// the destination account belongs to that bidder and carries the launch's
/// token type; those checks stand as `requires`, as does success of the
/// escrow transfer primitive on the paying path.
pub fn claim_tokens(
    launch: &mut Launch,
    bid: &mut Bid,
    pool: &mut EscrowPool,
    user_ata: &mut TokenAccount,
) -> (r: Result<TokensClaimed, ErrorCode>)
    requires
        old(user_ata).owner == old(bid).bidder,
        old(user_ata).mint == old(launch).mint,
        claim_error(*old(launch), *old(bid)) is None ==> {
            &&& old(bid).allocation <= old(pool).reward_available
            &&& old(user_ata).balance + old(bid).allocation <= u64::MAX
            &&& old(launch).tokens_distributed + old(bid).allocation <= u64::MAX
        },
    ensures
        final(launch).tokens_distributed >= old(launch).tokens_distributed,
        final(launch).is_finalized == old(launch).is_finalized,
        solvent(*old(launch), *old(pool)) ==> solvent(*final(launch), *final(pool)),
        match claim_error(*old(launch), *old(bid)) {
            Some(e) => {
                &&& r == Err::<TokensClaimed, ErrorCode>(e)
                &&& *final(launch) == *old(launch)
                &&& *final(bid) == *old(bid)
                &&& *final(pool) == *old(pool)
                &&& *final(user_ata) == *old(user_ata)
            },
            None => {
                &&& r == Ok::<TokensClaimed, ErrorCode>(TokensClaimed {
                    bidder: old(bid).bidder,
                    amount: old(bid).allocation,
                })
                &&& *final(launch) == launch_after_claim(*old(launch), old(bid).allocation)
                &&& *final(bid) == bid_after_claim(*old(bid))
                &&& *final(pool) == (EscrowPool {
                    reward_available: (old(pool).reward_available - old(bid).allocation) as u64,
                    ..*old(pool)
                })
                &&& *final(user_ata) == credited(*old(user_ata), old(bid).allocation)
            },
        },
{
    if !launch.is_finalized {
        return Err(ErrorCode::NotFinalized);
    }
    if bid.allocation == 0 {
        return Err(ErrorCode::NoAllocation);
    }
    if bid.is_claimed {
        return Err(ErrorCode::AlreadyClaimed);
    }
    let amount = bid.allocation;
    pool.pay_reward(user_ata, amount);
    bid.is_claimed = true;
    launch.tokens_distributed = launch.tokens_distributed + amount;
    Ok(TokensClaimed { bidder: bid.bidder, amount })
}

/// Pushes a batch payout from the pool to a list of recipients and marks the
/// launch finalized: authority-only, and only before finalization. The
/// recipient and amount lists must be of equal length, every recipient must
/// come with its destination account, and each supplied destination must be
/// the recipient it is claimed for, a defense against a caller substituting
/// a different destination. An admitted batch pays every recipient: the
/// whole batch commits or nothing does, and no recipient is ever silently
/// skipped. The finalization event carries the digest of the supplied
/// allocation proof.
///
/// Success of every escrow transfer of an admitted batch stands as
/// `requires`: the host aborts the whole transaction when any single
/// transfer fails, so the transition is specified only where the batch goes
/// through.
pub fn finalize_and_distribute(
    launch: &mut Launch,
    pool: &mut EscrowPool,
    dests: &mut Vec<TokenAccount>,
    caller: AccountKey,
    allocation_proof: &Vec<u8>,
    recipients: &Vec<AccountKey>,
    amounts: &Vec<u64>,
) -> (r: Result<LaunchFinalized, ErrorCode>)
    requires
        distribute_error(*old(launch), caller, recipients@, amounts@, old(dests)@) is None ==> {
            &&& sum_amounts(amounts@) <= old(pool).reward_available
            &&& old(launch).tokens_distributed + sum_amounts(amounts@) <= u64::MAX
            &&& forall|i: int|
                0 <= i < amounts@.len()
                    ==> (#[trigger] old(dests)@[i]).balance + amounts@[i] <= u64::MAX
        },
    ensures
        final(launch).tokens_distributed >= old(launch).tokens_distributed,
        solvent(*old(launch), *old(pool)) ==> solvent(*final(launch), *final(pool)),
        match distribute_error(*old(launch), caller, recipients@, amounts@, old(dests)@) {
            Some(e) => {
                &&& r == Err::<LaunchFinalized, ErrorCode>(e)
                &&& *final(launch) == *old(launch)
                &&& *final(pool) == *old(pool)
                &&& final(dests)@ == old(dests)@
            },
            None => {
                &&& r matches Ok(e)
                &&& e.proof_hash@ == digest_of(allocation_proof@)
                &&& *final(launch) == (Launch {
                    is_finalized: true,
                    tokens_distributed: (old(launch).tokens_distributed + sum_amounts(
                        amounts@,
                    )) as u64,
                    ..*old(launch)
                })
                &&& *final(pool) == (EscrowPool {
                    reward_available: (old(pool).reward_available - sum_amounts(amounts@)) as u64,
                    ..*old(pool)
                })
                &&& final(dests)@.len() == old(dests)@.len()
                &&& forall|i: int|
                    0 <= i < recipients@.len() ==> final(dests)@[i] == credited(
                        #[trigger] old(dests)@[i],
                        amounts@[i],
                    )
                &&& forall|i: int|
                    recipients@.len() <= i < old(dests)@.len()
                        ==> final(dests)@[i] == #[trigger] old(dests)@[i]
            },
        },
{
    if launch.is_finalized {
        return Err(ErrorCode::LaunchFinalized);
    }
    if caller != launch.authority {
        return Err(ErrorCode::Unauthorized);
    }
    if recipients.len() != amounts.len() {
        return Err(ErrorCode::InvalidAllocationInput);
    }
    if dests.len() < recipients.len() {
        return Err(ErrorCode::InvalidAllocationInput);
    }
    let n: usize = recipients.len();

    // Validate the externally supplied destination accounts against the
    // claimed recipients before anything moves, so a refusal has no effect.
    let mut i: usize = 0;
    while i < n
        invariant
            i <= n,
            n == recipients@.len(),
            *launch == *old(launch),
            *pool == *old(pool),
            dests@ == old(dests)@,
            !launch.is_finalized,
            caller == launch.authority,
            recipients@.len() == amounts@.len(),
            n <= dests@.len(),
            forall|j: int|
                0 <= j < i ==> (#[trigger] old(dests)@[j]).address == recipients@[j],
        decreases n - i,
    {
        if dests[i].address != recipients[i] {
            proof {
                assert(0 <= i < recipients@.len() && (old(dests)@[i as int]).address
                    != recipients@[i as int]);
                assert(distribute_error(*old(launch), caller, recipients@, amounts@, old(dests)@)
                    == Some(ErrorCode::InvalidAllocationInput));
            }
            return Err(ErrorCode::InvalidAllocationInput);
        }
        i += 1;
    }
    proof {
        assert(distribute_error(*old(launch), caller, recipients@, amounts@, old(dests)@)
            is None);
        assert(amounts@.take(n as int) =~= amounts@);
    }

    // Apply the batch: debit the pool's reward ledger and credit each
    // destination in order, accumulating the distributed total.
    let mut i: usize = 0;
    while i < n
        invariant
            i <= n,
            n == recipients@.len(),
            recipients@.len() == amounts@.len(),
            n <= dests@.len(),
            dests@.len() == old(dests)@.len(),
            *launch == with_distributed(*old(launch), launch.tokens_distributed),
            *pool == (EscrowPool {
                reward_available: pool.reward_available,
                ..*old(pool)
            }),
            pool.reward_available == old(pool).reward_available - sum_amounts(
                amounts@.take(i as int),
            ),
            launch.tokens_distributed == old(launch).tokens_distributed + sum_amounts(
                amounts@.take(i as int),
            ),
            sum_amounts(amounts@.take(n as int)) <= old(pool).reward_available,
            old(launch).tokens_distributed + sum_amounts(amounts@.take(n as int)) <= u64::MAX,
            forall|j: int|
                0 <= j < n ==> (#[trigger] old(dests)@[j]).balance + amounts@[j] <= u64::MAX,
            forall|j: int|
                0 <= j < i ==> #[trigger] dests@[j] == credited(old(dests)@[j], amounts@[j]),
            forall|j: int| i <= j < dests@.len() ==> #[trigger] dests@[j] == old(dests)@[j],
        decreases n - i,
    {
        proof {
            lemma_sum_take_succ(amounts@, i as int);
            lemma_sum_take_nonneg(amounts@, i as int);
            lemma_sum_take_mono(amounts@, i as int + 1, n as int);
        }
        let amount = amounts[i];
        let mut dest = dests[i];
        pool.pay_reward(&mut dest, amount);
        dests.set(i, dest);
        launch.tokens_distributed = launch.tokens_distributed + amount;
        i += 1;
    }
    proof {
        lemma_sum_take_nonneg(amounts@, n as int);
    }
    launch.is_finalized = true;
    Ok(LaunchFinalized { proof_hash: proof_digest(allocation_proof) })
}

/// The launch with only its distributed total replaced.
spec fn with_distributed(launch: Launch, tokens_distributed: u64) -> Launch {
    Launch { tokens_distributed, ..launch }
}

/// Appending one element to a summed prefix adds that element to the sum.
proof fn lemma_sum_take_succ(s: Seq<u64>, i: int)
    requires
        0 <= i < s.len(),
    ensures
        sum_amounts(s.take(i + 1)) == sum_amounts(s.take(i)) + s[i],
{
    assert(s.take(i + 1).drop_last() =~= s.take(i));
    assert(s.take(i + 1).last() == s[i]);
}

/// Prefix sums of token amounts are non-negative.
proof fn lemma_sum_take_nonneg(s: Seq<u64>, i: int)
    requires
        0 <= i <= s.len(),
    ensures
        0 <= sum_amounts(s.take(i)),
    decreases i,
{
    if i == 0 {
        assert(s.take(0) =~= Seq::<u64>::empty());
    } else {
        lemma_sum_take_succ(s, i - 1);
        lemma_sum_take_nonneg(s, i - 1);
    }
}

/// Prefix sums of token amounts grow with the prefix.
proof fn lemma_sum_take_mono(s: Seq<u64>, i: int, j: int)
    requires
        0 <= i <= j <= s.len(),
    ensures
        sum_amounts(s.take(i)) <= sum_amounts(s.take(j)),
    decreases j - i,
{
    if i < j {
        lemma_sum_take_succ(s, j - 1);
        lemma_sum_take_mono(s, i, j - 1);
    }
}

} // verus!
