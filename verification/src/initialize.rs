//! Making the pool.

use vstd::prelude::*;
use crate::error::CustomError;
use crate::identity::Identity;
use crate::pool::WeeklyPool;

verus! {

/// What the making of the pool works on.
#[derive(Clone, Copy, Debug)]
pub struct InitializePool {
    /// The place of the pool's ledger: `None` until the pool was made.
    pub weekly_pool: Option<WeeklyPool>,
    /// Who makes the pool.
    pub creator: Identity,
}

/// What `initialize_pool` makes of `ctx`: a ledger with all counters at zero
/// in a place that was empty, and a refusal where a ledger is there already.
pub open spec fn initialize_outcome(ctx: InitializePool) -> Result<InitializePool, CustomError> {
    if ctx.weekly_pool is Some {
        Err(CustomError::AlreadyExists)
    } else {
        Ok(InitializePool { weekly_pool: Some(WeeklyPool::initial(ctx.creator)), ..ctx })
    }
}

/// Makes the pool: puts a ledger with all counters at zero, whose creator is
/// `ctx.creator`, into the ledger's place.
///
/// A pool is made once. Where the place holds a ledger already the call
/// fails with `AlreadyExists` and that ledger stays as it is.
pub fn initialize_pool(ctx: &mut InitializePool) -> (result: Result<(), CustomError>)
    ensures
        match initialize_outcome(*old(ctx)) {
            Ok(next) => result is Ok && *final(ctx) == next,
            Err(e) => result == Err::<(), CustomError>(e) && *final(ctx) == *old(ctx),
        },
{
    if ctx.weekly_pool.is_some() {
        return Err(CustomError::AlreadyExists);
    }
    ctx.weekly_pool = Some(WeeklyPool::new(ctx.creator));
    Ok(())
}

} // verus!
