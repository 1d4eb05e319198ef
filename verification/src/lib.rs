//! A weekly prize pool for blog entries.
//!
//! Participants publish entries and pay a contribution into a shared pool.
//! Once per cooldown period one entry is declared the winner: the pool is
//! split between the winner and the pool's creator, and a new round begins.
//!
//! Every operation works on explicit values: the ledger, the record store
//! and the balances are handed in by the caller, and an operation that is
//! refused leaves them as they were. The operations that need the time come
//! in two forms: one reads the runtime's clock, the other takes the time as
//! an argument.
//!
//! - [`initialize`]: making the pool;
//! - [`contribute`]: creating an entry and paying for it;
//! - [`settle`]: declaring the winner and paying out;
//! - [`pool`], [`entry`], [`bank`], [`identity`], [`error`]: the values these
//!   work on;
//! - [`laws`]: what holds of every round.
//!
//! Each operation promises the outcome that a function of the same module
//! describes (`initialize_outcome`, `create_outcome`, `declare_outcome`).
//! The forms that read the clock promise it for the time that was read.

pub mod bank;
mod clock;
pub mod contribute;
pub mod entry;
pub mod error;
pub mod identity;
pub mod initialize;
pub mod laws;
pub mod pool;
pub mod settle;

pub use bank::Bank;
pub use contribute::{create_blog_entry, create_blog_entry_at, CreateEntry};
pub use entry::{BlogEntryState, EntryStore};
pub use error::CustomError;
pub use identity::Identity;
pub use initialize::{initialize_pool, InitializePool};
pub use pool::{creator_share, winner_share, WeeklyPool, SPIN_COOLDOWN_SECS};
pub use settle::{declare_winner, declare_winner_at, DeclareWinner};
