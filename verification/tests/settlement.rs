use obsidian::engine::claim_tokens;
use obsidian::engine::finalize_and_distribute;
use obsidian::engine::finalize_launch;
use obsidian::engine::initialize_launch;
use obsidian::engine::record_allocation;
use obsidian::engine::run_ai_allocation;
use obsidian::engine::submit_encrypted_bid;
use obsidian::state::Bid;
use obsidian::state::ErrorCode;
use obsidian::state::TokenAccount;

const AUTHORITY: u64 = 7;
const MINT: u64 = 1;
const POOL_ADDR: u64 = 2;
const BIDDER_A: u64 = 10;
const BIDDER_B: u64 = 11;

fn fresh_launch(
    total_tokens: u64,
) -> (obsidian::state::Launch, obsidian::state::EscrowPool) {
    initialize_launch(AUTHORITY, MINT, POOL_ADDR, total_tokens, 500, 255)
}

fn bidder_account(owner: u64, balance: u64) -> TokenAccount {
    TokenAccount { address: owner + 100, mint: MINT, owner, balance }
}

#[test]
fn initialize_sets_fresh_state() {
    let (launch, pool) = fresh_launch(1000);
    assert_eq!(launch.authority, AUTHORITY);
    assert_eq!(launch.mint, MINT);
    assert_eq!(launch.launch_pool, POOL_ADDR);
    assert_eq!(launch.total_tokens, 1000);
    assert_eq!(launch.max_allocation, 500);
    assert_eq!(launch.tokens_distributed, 0);
    assert!(!launch.is_finalized);
    assert_eq!(launch.bump, 255);
    assert_eq!(pool.payment_collected, 0);
    assert_eq!(pool.reward_available, 1000);
}

#[test]
fn submit_escrows_payment_and_creates_bid() {
    let (launch, mut pool) = fresh_launch(1000);
    let mut from = bidder_account(BIDDER_A, 500);
    let bid = submit_encrypted_bid(&launch, &mut from, &mut pool, BIDDER_A, vec![9, 9, 9], 100)
        .unwrap();
    assert_eq!(bid.bidder, BIDDER_A);
    assert_eq!(bid.encrypted_data, vec![9, 9, 9]);
    assert!(!bid.is_processed);
    assert_eq!(bid.allocation, 0);
    assert!(!bid.is_claimed);
    assert_eq!(from.balance, 400);
    assert_eq!(pool.payment_collected, 100);
    assert_eq!(pool.reward_available, 1000);
}

#[test]
fn full_lifecycle_claims_exactly_once() {
    // Create a launch with 1000 tokens; A escrows 100, wins 400, claims 400
    // once; the second claim is refused.
    let (mut launch, mut pool) = fresh_launch(1000);
    let mut from = bidder_account(BIDDER_A, 500);
    let mut bid =
        submit_encrypted_bid(&launch, &mut from, &mut pool, BIDDER_A, vec![1, 2], 100).unwrap();

    let rec = record_allocation(&launch, &mut bid, AUTHORITY, 400).unwrap();
    assert_eq!(rec.bidder, BIDDER_A);
    assert_eq!(rec.amount, 400);
    assert_eq!(bid.allocation, 400);
    assert!(bid.is_processed);

    let fin = finalize_launch(&mut launch, AUTHORITY).unwrap();
    assert_eq!(fin.proof_hash, [0u8; 32]);
    assert!(launch.is_finalized);

    let mut ata = bidder_account(BIDDER_A, 0);
    let claimed = claim_tokens(&mut launch, &mut bid, &mut pool, &mut ata).unwrap();
    assert_eq!(claimed.bidder, BIDDER_A);
    assert_eq!(claimed.amount, 400);
    assert_eq!(ata.balance, 400);
    assert!(bid.is_claimed);
    assert_eq!(launch.tokens_distributed, 400);
    assert_eq!(pool.reward_available, 600);

    let again = claim_tokens(&mut launch, &mut bid, &mut pool, &mut ata);
    assert_eq!(again, Err(ErrorCode::AlreadyClaimed));
    assert_eq!(ata.balance, 400);
    assert_eq!(launch.tokens_distributed, 400);
}

#[test]
fn claim_without_allocation_is_refused() {
    // Bidder B never receives an allocation; after finalize their claim
    // fails with NoAllocation.
    let (mut launch, mut pool) = fresh_launch(1000);
    let mut from = bidder_account(BIDDER_B, 50);
    let mut bid =
        submit_encrypted_bid(&launch, &mut from, &mut pool, BIDDER_B, vec![5], 50).unwrap();
    finalize_launch(&mut launch, AUTHORITY).unwrap();
    let mut ata = bidder_account(BIDDER_B, 0);
    let r = claim_tokens(&mut launch, &mut bid, &mut pool, &mut ata);
    assert_eq!(r, Err(ErrorCode::NoAllocation));
    assert_eq!(ata.balance, 0);
    assert!(!bid.is_claimed);
}

#[test]
fn claim_before_finalize_is_refused_regardless_of_allocation() {
    let (mut launch, mut pool) = fresh_launch(1000);
    let mut bid = Bid {
        bidder: BIDDER_A,
        encrypted_data: vec![],
        is_processed: false,
        allocation: 0,
        is_claimed: false,
    };
    record_allocation(&launch, &mut bid, AUTHORITY, 400).unwrap();
    let mut ata = bidder_account(BIDDER_A, 0);
    let r = claim_tokens(&mut launch, &mut bid, &mut pool, &mut ata);
    assert_eq!(r, Err(ErrorCode::NotFinalized));
    assert_eq!(ata.balance, 0);
    assert!(!bid.is_claimed);
    assert_eq!(launch.tokens_distributed, 0);
}

#[test]
fn record_by_non_authority_is_refused_and_changes_nothing() {
    let (launch, _pool) = fresh_launch(1000);
    let mut bid = Bid {
        bidder: BIDDER_A,
        encrypted_data: vec![3],
        is_processed: false,
        allocation: 0,
        is_claimed: false,
    };
    let r = record_allocation(&launch, &mut bid, BIDDER_A, 400);
    assert_eq!(r, Err(ErrorCode::Unauthorized));
    assert_eq!(bid.allocation, 0);
    assert!(!bid.is_processed);
}

#[test]
fn submit_after_finalize_is_refused() {
    let (mut launch, mut pool) = fresh_launch(1000);
    finalize_launch(&mut launch, AUTHORITY).unwrap();
    let mut from = bidder_account(BIDDER_A, 500);
    let r = submit_encrypted_bid(&launch, &mut from, &mut pool, BIDDER_A, vec![1], 100);
    assert_eq!(r, Err(ErrorCode::LaunchFinalized));
    assert_eq!(from.balance, 500);
    assert_eq!(pool.payment_collected, 0);
}

#[test]
fn record_after_finalize_is_refused_whoever_calls() {
    let (mut launch, _pool) = fresh_launch(1000);
    finalize_launch(&mut launch, AUTHORITY).unwrap();
    let mut bid = Bid {
        bidder: BIDDER_A,
        encrypted_data: vec![],
        is_processed: false,
        allocation: 0,
        is_claimed: false,
    };
    // The finalization gate comes before the authority check: the authority
    // itself and a stranger both see LaunchFinalized.
    assert_eq!(
        record_allocation(&launch, &mut bid, AUTHORITY, 10),
        Err(ErrorCode::LaunchFinalized)
    );
    assert_eq!(
        record_allocation(&launch, &mut bid, BIDDER_B, 10),
        Err(ErrorCode::LaunchFinalized)
    );
    assert_eq!(bid.allocation, 0);
}

#[test]
fn finalize_twice_is_refused() {
    let (mut launch, _pool) = fresh_launch(1000);
    finalize_launch(&mut launch, AUTHORITY).unwrap();
    let r = finalize_launch(&mut launch, AUTHORITY);
    assert_eq!(r, Err(ErrorCode::LaunchFinalized));
    assert!(launch.is_finalized);
}

#[test]
fn finalize_by_non_authority_is_refused() {
    let (mut launch, _pool) = fresh_launch(1000);
    let r = finalize_launch(&mut launch, BIDDER_A);
    assert_eq!(r, Err(ErrorCode::Unauthorized));
    assert!(!launch.is_finalized);
}

#[test]
fn distribute_with_mismatched_lengths_is_refused() {
    // Three recipients against two amounts: refused, and neither the
    // distributed total nor the finalize flag moves.
    let (mut launch, mut pool) = fresh_launch(1000);
    let mut dests = vec![
        bidder_account(BIDDER_A, 0),
        bidder_account(BIDDER_B, 0),
        bidder_account(12, 0),
    ];
    dests[0].address = 20;
    dests[1].address = 21;
    dests[2].address = 22;
    let r = finalize_and_distribute(
        &mut launch,
        &mut pool,
        &mut dests,
        AUTHORITY,
        &vec![],
        &vec![20, 21, 22],
        &vec![100, 200],
    );
    assert_eq!(r, Err(ErrorCode::InvalidAllocationInput));
    assert_eq!(launch.tokens_distributed, 0);
    assert!(!launch.is_finalized);
    assert_eq!(pool.reward_available, 1000);
    assert_eq!(dests[0].balance, 0);
}

#[test]
fn distribute_pays_batch_and_finalizes() {
    let (mut launch, mut pool) = fresh_launch(1000);
    let mut dests = vec![bidder_account(BIDDER_A, 5), bidder_account(BIDDER_B, 0)];
    dests[0].address = 20;
    dests[1].address = 21;
    let fin = finalize_and_distribute(
        &mut launch,
        &mut pool,
        &mut dests,
        AUTHORITY,
        &vec![],
        &vec![20, 21],
        &vec![100, 200],
    )
    .unwrap();
    assert_eq!(launch.tokens_distributed, 300);
    assert!(launch.is_finalized);
    assert_eq!(pool.reward_available, 700);
    assert_eq!(dests[0].balance, 105);
    assert_eq!(dests[1].balance, 200);
    // SHA-256 of the empty proof, byte for byte.
    let expected: [u8; 32] = [
        0xe3, 0xb0, 0xc4, 0x42, 0x98, 0xfc, 0x1c, 0x14, 0x9a, 0xfb, 0xf4, 0xc8, 0x99, 0x6f,
        0xb9, 0x24, 0x27, 0xae, 0x41, 0xe4, 0x64, 0x9b, 0x93, 0x4c, 0xa4, 0x95, 0x99, 0x1b,
        0x78, 0x52, 0xb8, 0x55,
    ];
    assert_eq!(fin.proof_hash, expected);
}

#[test]
fn distribute_digest_is_not_the_proof_itself() {
    let (mut launch, mut pool) = fresh_launch(1000);
    let mut dests: Vec<TokenAccount> = vec![];
    let proof = vec![0u8; 32];
    let fin = finalize_and_distribute(
        &mut launch,
        &mut pool,
        &mut dests,
        AUTHORITY,
        &proof,
        &vec![],
        &vec![],
    )
    .unwrap();
    assert_ne!(fin.proof_hash.to_vec(), proof);
}

#[test]
fn distribute_with_substituted_destination_is_refused() {
    let (mut launch, mut pool) = fresh_launch(1000);
    let mut dests = vec![bidder_account(BIDDER_A, 0)];
    dests[0].address = 99;
    let r = finalize_and_distribute(
        &mut launch,
        &mut pool,
        &mut dests,
        AUTHORITY,
        &vec![],
        &vec![20],
        &vec![100],
    );
    assert_eq!(r, Err(ErrorCode::InvalidAllocationInput));
    assert_eq!(launch.tokens_distributed, 0);
    assert!(!launch.is_finalized);
    assert_eq!(dests[0].balance, 0);
}

#[test]
fn distribute_after_finalize_is_refused() {
    let (mut launch, mut pool) = fresh_launch(1000);
    finalize_launch(&mut launch, AUTHORITY).unwrap();
    let mut dests: Vec<TokenAccount> = vec![];
    let r = finalize_and_distribute(
        &mut launch,
        &mut pool,
        &mut dests,
        AUTHORITY,
        &vec![],
        &vec![],
        &vec![],
    );
    assert_eq!(r, Err(ErrorCode::LaunchFinalized));
}

#[test]
fn distribute_by_non_authority_is_refused() {
    let (mut launch, mut pool) = fresh_launch(1000);
    let mut dests: Vec<TokenAccount> = vec![];
    let r = finalize_and_distribute(
        &mut launch,
        &mut pool,
        &mut dests,
        BIDDER_A,
        &vec![],
        &vec![],
        &vec![],
    );
    assert_eq!(r, Err(ErrorCode::Unauthorized));
    assert!(!launch.is_finalized);
}

#[test]
fn distribute_with_missing_destination_account_is_refused() {
    // The host hands over fewer destination accounts than recipients: the
    // batch is refused whole rather than silently skipping anyone, and
    // nothing moves or finalizes.
    let (mut launch, mut pool) = fresh_launch(1000);
    let mut dests = vec![bidder_account(BIDDER_A, 0)];
    dests[0].address = 20;
    let r = finalize_and_distribute(
        &mut launch,
        &mut pool,
        &mut dests,
        AUTHORITY,
        &vec![],
        &vec![20, 21],
        &vec![100, 200],
    );
    assert_eq!(r, Err(ErrorCode::InvalidAllocationInput));
    assert_eq!(launch.tokens_distributed, 0);
    assert!(!launch.is_finalized);
    assert_eq!(pool.reward_available, 1000);
    assert_eq!(dests[0].balance, 0);
}

#[test]
fn distributed_total_never_exceeds_supply_across_sequence() {
    // Escrowed payments never bleed into the reward ledger: a full sequence
    // of operations keeps the distributed total within the declared supply.
    let (mut launch, mut pool) = fresh_launch(500);
    let mut from_a = bidder_account(BIDDER_A, 1000);
    let mut bid_a =
        submit_encrypted_bid(&launch, &mut from_a, &mut pool, BIDDER_A, vec![], 900).unwrap();
    record_allocation(&launch, &mut bid_a, AUTHORITY, 500).unwrap();
    finalize_launch(&mut launch, AUTHORITY).unwrap();
    let mut ata = bidder_account(BIDDER_A, 0);
    claim_tokens(&mut launch, &mut bid_a, &mut pool, &mut ata).unwrap();
    assert_eq!(launch.tokens_distributed, 500);
    assert!(launch.tokens_distributed <= launch.total_tokens);
    assert_eq!(pool.reward_available, 0);
    assert_eq!(pool.payment_collected, 900);
}

#[test]
fn distribute_can_pay_out_the_whole_supply() {
    let (mut launch, mut pool) = fresh_launch(300);
    let mut dests = vec![bidder_account(BIDDER_A, 0), bidder_account(BIDDER_B, 0)];
    dests[0].address = 20;
    dests[1].address = 21;
    finalize_and_distribute(
        &mut launch,
        &mut pool,
        &mut dests,
        AUTHORITY,
        &vec![7],
        &vec![20, 21],
        &vec![100, 200],
    )
    .unwrap();
    assert_eq!(launch.tokens_distributed, 300);
    assert_eq!(launch.tokens_distributed, launch.total_tokens);
    assert_eq!(pool.reward_available, 0);
}

#[test]
fn allocation_process_event_carries_timestamp() {
    let e = run_ai_allocation(1700000000);
    assert_eq!(e.timestamp, 1700000000);
}
