//! Sealed-bid token-launch settlement engine.
//!
//! Bidders escrow payment tokens against a fixed-supply launch, an external
//! allocator decides how many launch tokens each bid wins, and this engine
//! enforces that winners claim exactly their allocation exactly once, that
//! tokens distributed never exceed the launch's total supply, and that no
//! distribution happens before the authority finalizes the launch.
//!
//! The engine is the pure state machine: the host ledger resolves and stores
//! the records, sequences the operations atomically, and performs the actual
//! token movements; every operation here either fully commits or returns an
//! error with no observable effect.

pub mod digest;
pub mod engine;
pub mod laws;
pub mod state;
