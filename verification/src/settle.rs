//! Declaring the winner and paying out the pool.

use vstd::prelude::*;
use crate::bank::{transfer_both_outcome, Bank};
use crate::clock::unix_timestamp;
use crate::entry::{BlogEntryState, EntryView};
use crate::error::CustomError;
use crate::identity::Identity;
use crate::pool::{creator_share, creator_share_of, winner_share, winner_share_of, WeeklyPool};

verus! {

/// What the declaration of a winner works on.
#[derive(Debug)]
pub struct DeclareWinner {
    /// The ledger of the pool.
    pub weekly_pool: WeeklyPool,
    /// The balances, among them the pool's and those of the two payees.
    pub bank: Bank,
    /// The entry that is said to have won.
    pub winner_blog: BlogEntryState,
    /// Who is paid the winner's part.
    pub winner: Identity,
    /// Who is paid the creator's part.
    pub creator_wallet: Identity,
}

/// A `DeclareWinner` as a mathematical value.
pub struct DeclareWinnerView {
    pub weekly_pool: WeeklyPool,
    pub balances: Map<Identity, u64>,
    pub vault: Identity,
    pub winner_blog: EntryView,
    pub winner: Identity,
    pub creator_wallet: Identity,
}

impl View for DeclareWinner {
    type V = DeclareWinnerView;

    open spec fn view(&self) -> DeclareWinnerView {
        DeclareWinnerView {
            weekly_pool: self.weekly_pool,
            balances: self.bank@,
            vault: self.bank.vault_key(),
            winner_blog: self.winner_blog@,
            winner: self.winner,
            creator_wallet: self.creator_wallet,
        }
    }
}

/// Why a winner may not be declared at time `now`, if so. The checks are
/// made in this order:
///
/// 1. `NoEntries`: the round has no entry;
/// 2. `SpinTooEarly`: the cooldown since the last settlement is running;
/// 3. `WinnerMismatch`: the winner's part would not go to the owner of the
///    winning entry.
pub open spec fn declare_refusal(ctx: DeclareWinnerView, now: i64) -> Option<CustomError> {
    if ctx.weekly_pool.total_entries == 0 {
        Some(CustomError::NoEntries)
    } else if ctx.weekly_pool.cooling_down(now) {
        Some(CustomError::SpinTooEarly)
    } else if ctx.winner != ctx.winner_blog.owner {
        Some(CustomError::WinnerMismatch)
    } else {
        None
    }
}

/// What a declaration made at time `now` makes of `ctx`. Where it is not
/// refused, the vault pays the winner's part of `total_pool` to the
/// winner and the rest to the creator's wallet, both or neither, and the
/// ledger starts a new round.
pub open spec fn declare_outcome(ctx: DeclareWinnerView, now: i64) -> Result<
    DeclareWinnerView,
    CustomError,
> {
    match declare_refusal(ctx, now) {
        Some(e) => Err(e),
        None => match transfer_both_outcome(
            ctx.balances,
            ctx.vault,
            ctx.winner,
            winner_share_of(ctx.weekly_pool.total_pool),
            ctx.creator_wallet,
            creator_share_of(ctx.weekly_pool.total_pool),
        ) {
            Ok(balances) => Ok(
                DeclareWinnerView {
                    weekly_pool: ctx.weekly_pool.settled(ctx.winner_blog.random_number, now),
                    balances,
                    ..ctx
                },
            ),
            Err(e) => Err(e),
        },
    }
}

/// `result` and `after` are what a declaration at time `now` makes of
/// `before`: the outcome that `declare_outcome` describes, and no change where
/// it fails.
pub open spec fn declared_at_time(
    before: DeclareWinnerView,
    now: i64,
    after: DeclareWinnerView,
    result: Result<(), CustomError>,
) -> bool {
    match declare_outcome(before, now) {
        Ok(next) => result is Ok && after == next,
        Err(e) => result == Err::<(), CustomError>(e) && after == before,
    }
}

/// Declares `ctx.winner_blog` the winner of the round at the time that the
/// clock shows, and pays out the pool.
///
/// A round without entries is refused with `NoEntries` before the clock is
/// read. Where the clock cannot be read the call fails with
/// `ClockUnavailable`. Otherwise the call does what `declare_winner_at` does
/// at the time read. No balance and no field of the ledger has changed on
/// failure.
pub fn declare_winner(ctx: &mut DeclareWinner) -> (result: Result<(), CustomError>)
    ensures
        result is Err ==> final(ctx)@ == old(ctx)@,
        old(ctx)@.weekly_pool.total_entries == 0 ==> result == Err::<(), CustomError>(
            CustomError::NoEntries,
        ),
        old(ctx)@.weekly_pool.total_entries != 0 ==> result == Err::<(), CustomError>(
            CustomError::ClockUnavailable,
        ) || exists|now: i64| declared_at_time(old(ctx)@, now, final(ctx)@, result),
{
    if ctx.weekly_pool.total_entries == 0 {
        return Err(CustomError::NoEntries);
    }
    let now: i64 = match unix_timestamp() {
        Ok(now) => now,
        Err(_) => {
            return Err(CustomError::ClockUnavailable);
        },
    };
    let result = declare_winner_at(ctx, now);
    assert(declared_at_time(old(ctx)@, now, ctx@, result));
    result
}

/// Declares `ctx.winner_blog` the winner of the round at time `now` and pays
/// out the pool.
///
/// The winner receives 90 percent of `total_pool`, rounded down, and the
/// creator's wallet the rest, so that exactly `total_pool` leaves the vault.
/// The ledger then starts a new round: both counters are zero, and it
/// remembers the winner's selection tag and `now`.
///
/// That the entry is the one that was drawn is not checked here: only that
/// the winner's part goes to its owner.
///
/// On failure no balance and no field of the ledger has changed.
/// `declare_refusal` tells which error comes on which input; after it, a
/// payment that the vault cannot cover fails with `InsufficientFunds`, and
/// one that a payee's balance cannot hold with `Overflow`.
pub fn declare_winner_at(ctx: &mut DeclareWinner, now: i64) -> (result: Result<(), CustomError>)
    ensures
        declared_at_time(old(ctx)@, now, final(ctx)@, result),
{
    if ctx.weekly_pool.total_entries == 0 {
        return Err(CustomError::NoEntries);
    }
    if ctx.weekly_pool.in_cooldown(now) {
        return Err(CustomError::SpinTooEarly);
    }
    if ctx.winner != ctx.winner_blog.owner {
        return Err(CustomError::WinnerMismatch);
    }
    let to_winner: u64 = winner_share(ctx.weekly_pool.total_pool);
    let to_creator: u64 = creator_share(ctx.weekly_pool.total_pool);
    let vault = ctx.bank.vault();
    match ctx.bank.transfer_both(&vault, &ctx.winner, to_winner, &ctx.creator_wallet, to_creator) {
        Ok(()) => {},
        Err(e) => {
            return Err(e);
        },
    }
    ctx.weekly_pool.total_pool = 0;
    ctx.weekly_pool.total_entries = 0;
    ctx.weekly_pool.last_winner_number = ctx.winner_blog.random_number;
    ctx.weekly_pool.last_spin_timestamp = now;
    Ok(())
}

} // verus!
