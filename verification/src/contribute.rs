//! Creating an entry and paying its contribution into the pool.

use vstd::prelude::*;
use crate::bank::{transfer_outcome, Bank};
use crate::clock::unix_timestamp;
use crate::entry::{
    byte_len, holds_entry, new_entry, random_number, text_len, BlogEntryState, EntryStore,
    EntryView, MAX_IPFS_HASH_LEN, MAX_TITLE_LEN,
};
use crate::error::CustomError;
use crate::identity::Identity;
use crate::pool::WeeklyPool;

verus! {

/// What the creation of an entry works on.
#[derive(Debug)]
pub struct CreateEntry {
    /// The ledger of the pool.
    pub weekly_pool: WeeklyPool,
    /// The records created so far.
    pub entries: EntryStore,
    /// The balances, among them the contributor's and the pool's.
    pub bank: Bank,
    /// Who contributes.
    pub owner: Identity,
}

/// A `CreateEntry` as a mathematical value.
pub struct CreateEntryView {
    pub weekly_pool: WeeklyPool,
    pub entries: Seq<EntryView>,
    pub balances: Map<Identity, u64>,
    pub vault: Identity,
    pub owner: Identity,
}

impl View for CreateEntry {
    type V = CreateEntryView;

    open spec fn view(&self) -> CreateEntryView {
        CreateEntryView {
            weekly_pool: self.weekly_pool,
            entries: self.entries@,
            balances: self.bank@,
            vault: self.bank.vault_key(),
            owner: self.owner,
        }
    }
}

/// Why a contribution of `amount` under `title` is refused, if it is. The
/// checks are made in this order:
///
/// 1. `AlreadyExists`: the owner has an entry with this title already;
/// 2. `SizeLimitExceeded`: the title or the content reference is too long;
/// 3. `InsufficientFunds`: the owner holds less than `amount`;
/// 4. `Overflow`: the ledger's counters or the vault's balance would no
///    longer fit into 64 bits.
pub open spec fn create_refusal(
    ctx: CreateEntryView,
    title: Seq<char>,
    ipfs_hash: Seq<char>,
    amount: u64,
) -> Option<CustomError> {
    if holds_entry(ctx.entries, title, ctx.owner) {
        Some(CustomError::AlreadyExists)
    } else if byte_len(title) > MAX_TITLE_LEN || byte_len(ipfs_hash) > MAX_IPFS_HASH_LEN {
        Some(CustomError::SizeLimitExceeded)
    } else if ctx.balances[ctx.owner] < amount {
        Some(CustomError::InsufficientFunds)
    } else if !ctx.weekly_pool.has_room_for(amount) || (ctx.owner != ctx.vault
        && ctx.balances[ctx.vault] + amount > u64::MAX) {
        Some(CustomError::Overflow)
    } else {
        None
    }
}

/// What a contribution made at time `now` makes of `ctx`. Where it is not
/// refused, the new record is appended to the store, `amount` moves from the
/// owner to the vault, and the ledger counts one more entry and `amount` more
/// in the pool.
pub open spec fn create_outcome(
    ctx: CreateEntryView,
    title: Seq<char>,
    ipfs_hash: Seq<char>,
    amount: u64,
    now: i64,
) -> Result<CreateEntryView, CustomError> {
    match create_refusal(ctx, title, ipfs_hash, amount) {
        Some(e) => Err(e),
        None => match transfer_outcome(ctx.balances, ctx.owner, ctx.vault, amount) {
            Ok(balances) => Ok(
                CreateEntryView {
                    weekly_pool: ctx.weekly_pool.credited(amount),
                    entries: ctx.entries.push(new_entry(ctx.owner, title, ipfs_hash, amount, now)),
                    balances,
                    ..ctx
                },
            ),
            Err(e) => Err(e),
        },
    }
}

/// `result` and `after` are what a contribution at time `now` makes of
/// `before`: the outcome that `create_outcome` describes, with the position of
/// the new record as the result, and no change where it is refused.
pub open spec fn created_at_time(
    before: CreateEntryView,
    title: Seq<char>,
    ipfs_hash: Seq<char>,
    amount: u64,
    now: i64,
    after: CreateEntryView,
    result: Result<usize, CustomError>,
) -> bool {
    match create_outcome(before, title, ipfs_hash, amount, now) {
        Ok(next) => result == Ok::<usize, CustomError>(before.entries.len() as usize) && after
            == next,
        Err(e) => result == Err::<usize, CustomError>(e) && after == before,
    }
}

/// Creates the entry `title` of `ctx.owner` at the time that the clock shows
/// and pays `pool_contribution` from the owner into the pool.
///
/// An entry that exists already is refused with `AlreadyExists` before the
/// clock is read. Where the clock cannot be read the call fails with
/// `ClockUnavailable`. Otherwise the call does what `create_blog_entry_at`
/// does at the time read. Nothing has changed on failure.
pub fn create_blog_entry(
    ctx: &mut CreateEntry,
    title: String,
    ipfs_hash: String,
    pool_contribution: u64,
) -> (result: Result<usize, CustomError>)
    ensures
        result is Err ==> *final(ctx) == *old(ctx),
        holds_entry(old(ctx)@.entries, title@, old(ctx)@.owner) ==> result == Err::<
            usize,
            CustomError,
        >(CustomError::AlreadyExists),
        !holds_entry(old(ctx)@.entries, title@, old(ctx)@.owner) ==> result == Err::<
            usize,
            CustomError,
        >(CustomError::ClockUnavailable) || exists|now: i64|
            created_at_time(
                old(ctx)@,
                title@,
                ipfs_hash@,
                pool_contribution,
                now,
                final(ctx)@,
                result,
            ),
{
    if ctx.entries.find(&title, &ctx.owner).is_some() {
        return Err(CustomError::AlreadyExists);
    }
    let now: i64 = match unix_timestamp() {
        Ok(now) => now,
        Err(_) => {
            return Err(CustomError::ClockUnavailable);
        },
    };
    let result = create_vacant(ctx, title, ipfs_hash, pool_contribution, now);
    assert(created_at_time(
        old(ctx)@,
        title@,
        ipfs_hash@,
        pool_contribution,
        now,
        ctx@,
        result,
    ));
    result
}

/// Creates the entry `title` of `ctx.owner` at time `now` and pays
/// `pool_contribution` from the owner into the pool.
///
/// On success the result is the position of the new record in the store.
/// The record holds the owner, the title, the content reference, the
/// contribution, `now` as its time of creation and the selection tag drawn
/// at `now`. The contribution has moved from the owner's balance to the
/// vault's, and the ledger counts it.
///
/// On failure nothing has changed. `create_refusal` tells which error comes
/// on which input.
pub fn create_blog_entry_at(
    ctx: &mut CreateEntry,
    title: String,
    ipfs_hash: String,
    pool_contribution: u64,
    now: i64,
) -> (result: Result<usize, CustomError>)
    ensures
        created_at_time(
            old(ctx)@,
            title@,
            ipfs_hash@,
            pool_contribution,
            now,
            final(ctx)@,
            result,
        ),
        result is Err ==> *final(ctx) == *old(ctx),
{
    if ctx.entries.find(&title, &ctx.owner).is_some() {
        return Err(CustomError::AlreadyExists);
    }
    create_vacant(ctx, title, ipfs_hash, pool_contribution, now)
}

/// Creates an entry of which it is known that the owner has none with its
/// title yet.
fn create_vacant(
    ctx: &mut CreateEntry,
    title: String,
    ipfs_hash: String,
    pool_contribution: u64,
    now: i64,
) -> (result: Result<usize, CustomError>)
    requires
        !holds_entry(old(ctx)@.entries, title@, old(ctx)@.owner),
    ensures
        created_at_time(
            old(ctx)@,
            title@,
            ipfs_hash@,
            pool_contribution,
            now,
            final(ctx)@,
            result,
        ),
        result is Err ==> *final(ctx) == *old(ctx),
{
    if text_len(&title) > MAX_TITLE_LEN || text_len(&ipfs_hash) > MAX_IPFS_HASH_LEN {
        return Err(CustomError::SizeLimitExceeded);
    }
    if ctx.bank.balance_of(&ctx.owner) < pool_contribution {
        return Err(CustomError::InsufficientFunds);
    }
    let total_pool: u64 = match ctx.weekly_pool.total_pool.checked_add(pool_contribution) {
        Some(sum) => sum,
        None => {
            return Err(CustomError::Overflow);
        },
    };
    let total_entries: u64 = match ctx.weekly_pool.total_entries.checked_add(1) {
        Some(count) => count,
        None => {
            return Err(CustomError::Overflow);
        },
    };
    let vault = ctx.bank.vault();
    match ctx.bank.transfer(&ctx.owner, &vault, pool_contribution) {
        Ok(()) => {},
        Err(e) => {
            return Err(e);
        },
    }
    let position = ctx.entries.len();
    ctx.entries.append(
        BlogEntryState {
            owner: ctx.owner,
            title,
            ipfs_hash,
            random_number: random_number(now),
            created_at: now,
            tip: pool_contribution,
        },
    );
    ctx.weekly_pool.total_pool = total_pool;
    ctx.weekly_pool.total_entries = total_entries;
    Ok(position)
}

} // verus!
