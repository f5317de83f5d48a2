//! Data model of the settlement engine: the launch record, bid records, the
//! pooled escrow account, the events each operation produces, and the spec
//! functions that decide, for every operation, on which states it is refused
//! and what the state looks like afterwards.

use vstd::prelude::*;

verus! {

/// Identity of an account in the host ledger. The host addresses accounts by
/// opaque public keys and the engine only ever compares them for equality, so
/// each distinct key is modelled as a distinct integer.
pub type AccountKey = u64;

/// The singleton record describing one token launch's configuration and
/// lifecycle state.
#[derive(Clone, Copy, Debug, PartialEq, Eq)]
pub struct Launch {
    /// Identity permitted to finalize the launch and record allocations.
    /// Set once at creation, immutable thereafter.
    pub authority: AccountKey,
    /// The token type accepted as escrow and distributed as reward.
    pub mint: AccountKey,
    /// Address of the pooled escrow account backing this launch.
    pub launch_pool: AccountKey,
    /// Total reward supply available to distribute.
    pub total_tokens: u64,
    /// Declared per-bid cap. Stored, but not checked by any settlement path:
    /// whether to enforce it is an open product decision, so the engine
    /// reproduces the field as it stands rather than inventing semantics.
    pub max_allocation: u64,
    /// Running sum of all tokens paid out via either settlement path.
    pub tokens_distributed: u64,
    /// One-way flag: once true it never becomes false. It gates claim
    /// eligibility and blocks further bids, allocation edits and a second
    /// finalize.
    pub is_finalized: bool,
    /// Opaque derivation material proving the launch's right to sign for the
    /// pooled escrow; not semantically meaningful to the engine.
    pub bump: u8,
}

/// A bidder's escrowed commitment plus, eventually, their recorded
/// allocation and claim status. At most one bid exists per bidder: the host
/// derives the bid's storage address from the bidder's key, so a duplicate
/// submission fails at the storage layer before the engine runs.
#[derive(Debug, PartialEq, Eq)]
pub struct Bid {
    /// Owning identity; set once at creation, immutable.
    pub bidder: AccountKey,
    /// Opaque encrypted payload; stored and never interpreted by the engine.
    pub encrypted_data: Vec<u8>,
    /// Whether the external allocator has examined this bid.
    pub is_processed: bool,
    /// Token amount won; zero until written by `record_allocation`.
    pub allocation: u64,
    /// One-way flag; once true, claiming is permanently disabled.
    pub is_claimed: bool,
}

/// A token account of the host ledger, reduced to what the engine reads:
/// its address, token type, owner and balance.
#[derive(Clone, Copy, Debug, PartialEq, Eq)]
pub struct TokenAccount {
    pub address: AccountKey,
    pub mint: AccountKey,
    pub owner: AccountKey,
    pub balance: u64,
}

/// The pooled escrow account of one launch, kept as two logical ledgers
/// backed by a single physical token account: payment collected from bids
/// flows in, reward supply flows out. The physical balance is the sum of the
/// two; keeping them apart makes the conservation invariant explicit instead
/// of implicit in one account balance.
#[derive(Clone, Copy, Debug, PartialEq, Eq)]
pub struct EscrowPool {
    /// Inbound ledger: payment tokens deposited by bid submissions.
    pub payment_collected: u64,
    /// Outbound ledger: reward tokens still available to distribute.
    pub reward_available: u64,
}

/// Why an operation was refused. Every operation either fully commits or
/// returns one of these with no observable effect.
#[derive(Clone, Copy, Debug, PartialEq, Eq)]
pub enum ErrorCode {
    /// The launch has already been finalized.
    LaunchFinalized,
    /// The caller is not authorized to perform this action.
    Unauthorized,
    /// Recipient and amount lists must be of equal length, every recipient
    /// must come with its destination account, and each supplied destination
    /// account must match the recipient it is claimed for.
    InvalidAllocationInput,
    /// The launch has not been finalized yet.
    NotFinalized,
    /// No allocation was recorded for this bid.
    NoAllocation,
    /// The bid's tokens have already been claimed.
    AlreadyClaimed,
}

/// Event: the external allocation process was started.
#[derive(Clone, Copy, Debug, PartialEq, Eq)]
pub struct AiProcessingStarted {
    pub timestamp: i64,
}

/// Event: the launch was finalized, carrying the 32-byte digest of the
/// allocation proof supplied at finalization (all zeroes for the plain
/// finalize, which carries no proof).
#[derive(Clone, Copy, Debug, PartialEq, Eq)]
pub struct LaunchFinalized {
    pub proof_hash: [u8; 32],
}

/// Event: the authority recorded a winning allocation for a bid.
#[derive(Clone, Copy, Debug, PartialEq, Eq)]
pub struct AllocationRecorded {
    pub bidder: AccountKey,
    pub amount: u64,
}

/// Event: a bidder claimed their recorded allocation.
#[derive(Clone, Copy, Debug, PartialEq, Eq)]
pub struct TokensClaimed {
    pub bidder: AccountKey,
    pub amount: u64,
}

/// Conservation invariant of one launch: the reward still available in the
/// pool and the tokens already distributed together account for exactly the
/// declared total supply. Established at initialization and preserved by
/// every operation; it bounds `tokens_distributed` by `total_tokens`.
pub open spec fn solvent(launch: Launch, pool: EscrowPool) -> bool {
    pool.reward_available + launch.tokens_distributed == launch.total_tokens
}

/// Decides whether a bid submission is refused, and why.
pub open spec fn submit_error(launch: Launch) -> Option<ErrorCode> {
    if launch.is_finalized {
        Some(ErrorCode::LaunchFinalized)
    } else {
        None
    }
}

/// Decides whether an authority-gated mutation (recording an allocation,
/// finalizing) is refused, and why. The finalization gate is checked before
/// the caller's identity: after finalization these operations fail with
/// `LaunchFinalized` whoever calls them.
pub open spec fn authority_gate_error(launch: Launch, caller: AccountKey) -> Option<ErrorCode> {
    if launch.is_finalized {
        Some(ErrorCode::LaunchFinalized)
    } else if caller != launch.authority {
        Some(ErrorCode::Unauthorized)
    } else {
        None
    }
}

/// Decides whether a claim is refused, and why.
pub open spec fn claim_error(launch: Launch, bid: Bid) -> Option<ErrorCode> {
    if !launch.is_finalized {
        Some(ErrorCode::NotFinalized)
    } else if bid.allocation == 0 {
        Some(ErrorCode::NoAllocation)
    } else if bid.is_claimed {
        Some(ErrorCode::AlreadyClaimed)
    } else {
        None
    }
}

/// Decides whether a batch distribution is refused, and why: every recipient
/// must come with its destination account, and each supplied destination
/// must be the recipient it is claimed for, so that an admitted batch pays
/// every entry — a batch never silently skips anyone.
pub open spec fn distribute_error(
    launch: Launch,
    caller: AccountKey,
    recipients: Seq<AccountKey>,
    amounts: Seq<u64>,
    dests: Seq<TokenAccount>,
) -> Option<ErrorCode> {
    if launch.is_finalized {
        Some(ErrorCode::LaunchFinalized)
    } else if caller != launch.authority {
        Some(ErrorCode::Unauthorized)
    } else if recipients.len() != amounts.len() {
        Some(ErrorCode::InvalidAllocationInput)
    } else if dests.len() < recipients.len() {
        Some(ErrorCode::InvalidAllocationInput)
    } else if exists|i: int|
        0 <= i < recipients.len() && (#[trigger] dests[i]).address != recipients[i] {
        Some(ErrorCode::InvalidAllocationInput)
    } else {
        None
    }
}

/// Sum of a sequence of token amounts, as an unbounded integer.
pub open spec fn sum_amounts(s: Seq<u64>) -> int
    decreases s.len(),
{
    if s.len() == 0 {
        0
    } else {
        sum_amounts(s.drop_last()) + s.last()
    }
}

/// The bid after a successful claim: only the claim flag changes.
pub open spec fn bid_after_claim(bid: Bid) -> Bid {
    Bid { is_claimed: true, ..bid }
}

/// The bid after the authority records an allocation: the award is
/// overwritten and the bid is marked processed.
pub open spec fn bid_after_record(bid: Bid, amount: u64) -> Bid {
    Bid { allocation: amount, is_processed: true, ..bid }
}

/// The launch after a successful claim: the distributed total grows by the
/// claimed amount, everything else is unchanged.
pub open spec fn launch_after_claim(launch: Launch, amount: u64) -> Launch {
    Launch { tokens_distributed: (launch.tokens_distributed + amount) as u64, ..launch }
}

/// The launch after the plain finalize: only the one-way flag flips.
pub open spec fn launch_after_finalize(launch: Launch) -> Launch {
    Launch { is_finalized: true, ..launch }
}

/// A token account after the escrow pool credits it with `amount`.
pub open spec fn credited(account: TokenAccount, amount: u64) -> TokenAccount {
    TokenAccount { balance: (account.balance + amount) as u64, ..account }
}

} // verus!
