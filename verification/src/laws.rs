//! What holds of every round of the pool, proved from the outcomes that the
//! operations promise.

use vstd::prelude::*;
use crate::bank::transfer_outcome;
use crate::contribute::{create_outcome, create_refusal, CreateEntryView};
use crate::entry::{
    byte_len, distinct_entries, holds_entry, new_entry, EntryView, MAX_IPFS_HASH_LEN,
    MAX_RANDOM_NUMBER, MAX_TITLE_LEN, MIN_RANDOM_NUMBER,
};
use crate::error::CustomError;
use crate::identity::Identity;
use crate::initialize::{initialize_outcome, InitializePool};
use crate::pool::{creator_share_of, winner_share_of, WeeklyPool, SPIN_COOLDOWN_SECS};
use crate::settle::{declare_outcome, DeclareWinnerView};

verus! {

/// One contribution: who makes it, with what, and when.
pub struct Contribution {
    pub owner: Identity,
    pub title: Seq<char>,
    pub ipfs_hash: Seq<char>,
    pub amount: u64,
    pub now: i64,
}

/// The sum of the amounts of `contributions`.
pub open spec fn total_of(contributions: Seq<Contribution>) -> int
    decreases contributions.len(),
{
    if contributions.len() == 0 {
        0
    } else {
        total_of(contributions.drop_last()) + contributions.last().amount
    }
}

/// What `contributions`, made one after the other, make of `ctx`: each is
/// made by its own owner on what the one before has left. The first refusal
/// ends the run.
pub open spec fn contribute_all(ctx: CreateEntryView, contributions: Seq<Contribution>) -> Result<
    CreateEntryView,
    CustomError,
>
    decreases contributions.len(),
{
    if contributions.len() == 0 {
        Ok(ctx)
    } else {
        match contribute_all(ctx, contributions.drop_last()) {
            Ok(mid) => {
                let c = contributions.last();
                create_outcome(
                    CreateEntryView { owner: c.owner, ..mid },
                    c.title,
                    c.ipfs_hash,
                    c.amount,
                    c.now,
                )
            },
            Err(e) => Err(e),
        }
    }
}

/// A `DeclareWinner` on the ledger and the balances that contributions have
/// left.
pub open spec fn settlement_after(
    after: CreateEntryView,
    winner_blog: EntryView,
    winner: Identity,
    creator_wallet: Identity,
) -> DeclareWinnerView {
    DeclareWinnerView {
        weekly_pool: after.weekly_pool,
        balances: after.balances,
        vault: after.vault,
        winner_blog,
        winner,
        creator_wallet,
    }
}

/// The two parts of a pool are together the whole pool: nothing is lost to
/// rounding and nothing is made.
pub proof fn law_split_is_exact(total: u64)
    ensures
        winner_share_of(total) + creator_share_of(total) == total,
        winner_share_of(total) == total * 90 / 100,
        winner_share_of(total) <= total,
{
}

/// A transfer changes the balances of payer and payee only, and what the one
/// loses the other gains.
pub proof fn law_transfer_conserves(
    m: Map<Identity, u64>,
    from: Identity,
    to: Identity,
    amount: u64,
)
    requires
        transfer_outcome(m, from, to, amount) is Ok,
    ensures
        ({
            let after = transfer_outcome(m, from, to, amount)->Ok_0;
            &&& forall|k: Identity| k != from && k != to ==> after[k] == m[k]
            &&& from != to ==> after[from] == m[from] - amount && after[to] == m[to] + amount
            &&& from == to ==> after == m
        }),
{
}

/// A pool that was just made counts no entry and holds nothing.
pub proof fn law_new_pool_is_empty(ctx: InitializePool)
    requires
        initialize_outcome(ctx) is Ok,
    ensures
        ({
            let made = initialize_outcome(ctx)->Ok_0;
            &&& made.weekly_pool == Some(WeeklyPool::initial(ctx.creator))
            &&& WeeklyPool::initial(ctx.creator).is_fresh()
            &&& initialize_outcome(made) == Err::<InitializePool, CustomError>(
                CustomError::AlreadyExists,
            )
        }),
{
}

/// After any number of contributions that were all accepted, the ledger
/// counts as many entries more as there were contributions, and its pool has
/// grown by the sum of their amounts. From a fresh ledger these are the
/// number and the sum themselves. What the ledger remembers of the last
/// settlement is as it was.
pub proof fn law_contributions_accumulate(ctx: CreateEntryView, contributions: Seq<Contribution>)
    requires
        contribute_all(ctx, contributions) is Ok,
    ensures
        ({
            let after = contribute_all(ctx, contributions)->Ok_0;
            &&& after.weekly_pool.total_entries == ctx.weekly_pool.total_entries
                + contributions.len()
            &&& after.weekly_pool.total_pool == ctx.weekly_pool.total_pool + total_of(
                contributions,
            )
            &&& after.entries.len() == ctx.entries.len() + contributions.len()
            &&& after.weekly_pool.creator == ctx.weekly_pool.creator
            &&& after.weekly_pool.last_winner_number == ctx.weekly_pool.last_winner_number
            &&& after.weekly_pool.last_spin_timestamp == ctx.weekly_pool.last_spin_timestamp
            &&& after.vault == ctx.vault
            &&& ctx.weekly_pool.is_fresh() ==> after.weekly_pool.total_entries
                == contributions.len() && after.weekly_pool.total_pool == total_of(contributions)
        }),
    decreases contributions.len(),
{
    if contributions.len() > 0 {
        law_contributions_accumulate(ctx, contributions.drop_last());
    }
}

/// Within a round the counters never go down: each accepted contribution
/// adds one entry and its amount.
pub proof fn law_contribution_counts_once(
    ctx: CreateEntryView,
    title: Seq<char>,
    ipfs_hash: Seq<char>,
    amount: u64,
    now: i64,
)
    requires
        create_outcome(ctx, title, ipfs_hash, amount, now) is Ok,
    ensures
        ({
            let after = create_outcome(ctx, title, ipfs_hash, amount, now)->Ok_0;
            &&& after.weekly_pool.total_entries == ctx.weekly_pool.total_entries + 1
            &&& after.weekly_pool.total_pool == ctx.weekly_pool.total_pool + amount
            &&& after.entries == ctx.entries.push(
                new_entry(ctx.owner, title, ipfs_hash, amount, now),
            )
            &&& ctx.owner != ctx.vault ==> after.balances[ctx.owner] == ctx.balances[ctx.owner]
                - amount && after.balances[ctx.vault] == ctx.balances[ctx.vault] + amount
            &&& forall|k: Identity|
                k != ctx.owner && k != ctx.vault ==> after.balances[k] == ctx.balances[k]
        }),
{
}

/// A settlement pays out the whole pool and leaves a fresh ledger.
///
/// The ledger's counters are zero afterwards, and it remembers the winner's
/// selection tag and the time. Where the vault is neither payee it has lost
/// exactly `total_pool`; the winner has gained the winner's part and the
/// creator's wallet the rest, or one identity that is both has gained all of
/// it. No other balance has changed.
pub proof fn law_settlement_pays_the_pool(ctx: DeclareWinnerView, now: i64)
    requires
        declare_outcome(ctx, now) is Ok,
    ensures
        ({
            let done = declare_outcome(ctx, now)->Ok_0;
            let total = ctx.weekly_pool.total_pool;
            &&& done.weekly_pool.is_fresh()
            &&& done.weekly_pool.creator == ctx.weekly_pool.creator
            &&& done.weekly_pool.last_winner_number == ctx.winner_blog.random_number
            &&& done.weekly_pool.last_spin_timestamp == now
            &&& winner_share_of(total) + creator_share_of(total) == total
            &&& forall|k: Identity|
                k != ctx.vault && k != ctx.winner && k != ctx.creator_wallet ==> done.balances[k]
                    == ctx.balances[k]
            &&& ctx.vault != ctx.winner && ctx.vault != ctx.creator_wallet ==> {
                &&& done.balances[ctx.vault] == ctx.balances[ctx.vault] - total
                &&& ctx.winner != ctx.creator_wallet ==> done.balances[ctx.winner]
                    == ctx.balances[ctx.winner] + winner_share_of(total)
                    && done.balances[ctx.creator_wallet] == ctx.balances[ctx.creator_wallet]
                    + creator_share_of(total)
                &&& ctx.winner == ctx.creator_wallet ==> done.balances[ctx.winner]
                    == ctx.balances[ctx.winner] + total
            }
            &&& ctx.vault == ctx.winner && ctx.vault != ctx.creator_wallet ==> {
                &&& done.balances[ctx.vault] == ctx.balances[ctx.vault] - creator_share_of(total)
                &&& done.balances[ctx.creator_wallet] == ctx.balances[ctx.creator_wallet]
                    + creator_share_of(total)
            }
            &&& ctx.vault != ctx.winner && ctx.vault == ctx.creator_wallet ==> {
                &&& done.balances[ctx.vault] == ctx.balances[ctx.vault] - winner_share_of(total)
                &&& done.balances[ctx.winner] == ctx.balances[ctx.winner] + winner_share_of(
                    total,
                )
            }
            &&& ctx.vault == ctx.winner && ctx.vault == ctx.creator_wallet ==> done.balances
                == ctx.balances
        }),
{
}

/// Conservation over a round: after contributions that were all accepted on
/// a fresh ledger, a settlement splits exactly the sum of their amounts
/// between winner and creator, and the pool is empty afterwards.
pub proof fn law_round_is_conserved(
    ctx: CreateEntryView,
    contributions: Seq<Contribution>,
    winner_blog: EntryView,
    winner: Identity,
    creator_wallet: Identity,
    now: i64,
)
    requires
        ctx.weekly_pool.is_fresh(),
        contribute_all(ctx, contributions) is Ok,
        declare_outcome(
            settlement_after(
                contribute_all(ctx, contributions)->Ok_0,
                winner_blog,
                winner,
                creator_wallet,
            ),
            now,
        ) is Ok,
    ensures
        ({
            let after = contribute_all(ctx, contributions)->Ok_0;
            let done = declare_outcome(
                settlement_after(after, winner_blog, winner, creator_wallet),
                now,
            )->Ok_0;
            let total = after.weekly_pool.total_pool;
            &&& total == total_of(contributions)
            &&& winner_share_of(total) + creator_share_of(total) == total_of(contributions)
            &&& done.weekly_pool.total_pool == 0
            &&& done.weekly_pool.total_entries == 0
        }),
{
    law_contributions_accumulate(ctx, contributions);
}

/// No second settlement within the cooldown: once a settlement has been made
/// at a time `first` other than 0, a declaration at a time less than the
/// cooldown after `first`, on a ledger that still remembers `first` and
/// counts an entry again, fails with `SpinTooEarly`.
///
/// A ledger without entries is refused for that reason before the cooldown
/// is looked at, and the time 0 stands for "never settled".
pub proof fn law_cooldown_holds(
    settled: DeclareWinnerView,
    first: i64,
    again: DeclareWinnerView,
    second: i64,
)
    requires
        declare_outcome(settled, first) is Ok,
        first != 0,
        again.weekly_pool.last_spin_timestamp == (declare_outcome(
            settled,
            first,
        )->Ok_0).weekly_pool.last_spin_timestamp,
        again.weekly_pool.total_entries > 0,
        second - first < SPIN_COOLDOWN_SECS,
    ensures
        declare_outcome(again, second) == Err::<DeclareWinnerView, CustomError>(
            CustomError::SpinTooEarly,
        ),
{
}

/// Right after a settlement, and until an entry is contributed, every
/// declaration fails with `NoEntries`.
pub proof fn law_settled_pool_has_no_winner(
    settled: DeclareWinnerView,
    first: i64,
    again: DeclareWinnerView,
    second: i64,
)
    requires
        declare_outcome(settled, first) is Ok,
        again.weekly_pool == (declare_outcome(settled, first)->Ok_0).weekly_pool,
    ensures
        declare_outcome(again, second) == Err::<DeclareWinnerView, CustomError>(
            CustomError::NoEntries,
        ),
{
}

/// The winner's part goes to the owner of the winning entry or to nobody:
/// where the round has entries and no cooldown is running, a declaration
/// that names another payee fails with `WinnerMismatch`.
pub proof fn law_winner_must_own_entry(ctx: DeclareWinnerView, now: i64)
    requires
        ctx.weekly_pool.total_entries > 0,
        !ctx.weekly_pool.cooling_down(now),
        ctx.winner != ctx.winner_blog.owner,
    ensures
        declare_outcome(ctx, now) == Err::<DeclareWinnerView, CustomError>(
            CustomError::WinnerMismatch,
        ),
{
}

/// A title can be used once by each owner: after an accepted contribution,
/// every further one by the same owner under the same title fails with
/// `AlreadyExists`, whatever else it brings and however many other
/// contributions were accepted in between.
pub proof fn law_duplicate_is_refused(
    ctx: CreateEntryView,
    title: Seq<char>,
    ipfs_hash: Seq<char>,
    amount: u64,
    now: i64,
    between: Seq<Contribution>,
    again: Contribution,
)
    requires
        create_outcome(ctx, title, ipfs_hash, amount, now) is Ok,
        contribute_all(create_outcome(ctx, title, ipfs_hash, amount, now)->Ok_0, between) is Ok,
        again.owner == ctx.owner,
        again.title == title,
    ensures
        ({
            let after = contribute_all(
                create_outcome(ctx, title, ipfs_hash, amount, now)->Ok_0,
                between,
            )->Ok_0;
            create_outcome(
                CreateEntryView { owner: again.owner, ..after },
                again.title,
                again.ipfs_hash,
                again.amount,
                again.now,
            ) == Err::<CreateEntryView, CustomError>(CustomError::AlreadyExists)
        }),
{
    let first = create_outcome(ctx, title, ipfs_hash, amount, now)->Ok_0;
    let after = contribute_all(first, between)->Ok_0;
    let at = ctx.entries.len() as int;
    assert(first.entries[at].title == title && first.entries[at].owner == ctx.owner);
    law_entries_are_kept(first, between, at);
    assert(after.entries[at].title == title && after.entries[at].owner == ctx.owner);
}

/// A record is written once: accepted contributions leave the records that
/// were there as and where they were.
pub proof fn law_entries_are_kept(
    ctx: CreateEntryView,
    contributions: Seq<Contribution>,
    i: int,
)
    requires
        contribute_all(ctx, contributions) is Ok,
        0 <= i < ctx.entries.len(),
    ensures
        i < (contribute_all(ctx, contributions)->Ok_0).entries.len(),
        (contribute_all(ctx, contributions)->Ok_0).entries[i] == ctx.entries[i],
    decreases contributions.len(),
{
    if contributions.len() > 0 {
        law_entries_are_kept(ctx, contributions.drop_last(), i);
    }
}

/// The record of an accepted contribution is within the limits: title and
/// content reference are no longer than allowed, and the selection tag has
/// five digits. It holds the contribution and the time, and stands last in
/// the store.
pub proof fn law_new_entry_is_well_formed(
    ctx: CreateEntryView,
    title: Seq<char>,
    ipfs_hash: Seq<char>,
    amount: u64,
    now: i64,
)
    requires
        create_outcome(ctx, title, ipfs_hash, amount, now) is Ok,
    ensures
        ({
            let after = create_outcome(ctx, title, ipfs_hash, amount, now)->Ok_0;
            let entry = after.entries.last();
            &&& after.entries.len() == ctx.entries.len() + 1
            &&& entry.owner == ctx.owner
            &&& entry.title == title
            &&& entry.ipfs_hash == ipfs_hash
            &&& entry.tip == amount
            &&& entry.created_at == now
            &&& byte_len(entry.title) <= MAX_TITLE_LEN
            &&& byte_len(entry.ipfs_hash) <= MAX_IPFS_HASH_LEN
            &&& MIN_RANDOM_NUMBER <= entry.random_number <= MAX_RANDOM_NUMBER
            &&& entry.random_number == now % 90000 + 10000
        }),
{
}

/// A store in which no two records share title and owner stays so when a
/// contribution is accepted.
pub proof fn law_entries_stay_distinct(
    ctx: CreateEntryView,
    title: Seq<char>,
    ipfs_hash: Seq<char>,
    amount: u64,
    now: i64,
)
    requires
        distinct_entries(ctx.entries),
        create_outcome(ctx, title, ipfs_hash, amount, now) is Ok,
    ensures
        distinct_entries((create_outcome(ctx, title, ipfs_hash, amount, now)->Ok_0).entries),
{
    let after = create_outcome(ctx, title, ipfs_hash, amount, now)->Ok_0;
    assert(create_refusal(ctx, title, ipfs_hash, amount) is None);
    assert(!holds_entry(ctx.entries, title, ctx.owner));
    assert forall|i: int, j: int| 0 <= i < j < after.entries.len() implies !(
    #[trigger] after.entries[i].title == #[trigger] after.entries[j].title
        && after.entries[i].owner == after.entries[j].owner) by {
        if j < ctx.entries.len() {
            assert(after.entries[i] == ctx.entries[i]);
            assert(after.entries[j] == ctx.entries[j]);
        } else {
            assert(after.entries[i] == ctx.entries[i]);
            assert(after.entries[j].title == title && after.entries[j].owner == ctx.owner);
            if ctx.entries[i].title == title && ctx.entries[i].owner == ctx.owner {
                assert(holds_entry(ctx.entries, title, ctx.owner));
            }
        }
    }
}

/// A pool that was just made has no winner: every declaration on its ledger
/// fails with `NoEntries`.
pub proof fn law_new_pool_has_no_winner(init: InitializePool, ctx: DeclareWinnerView, now: i64)
    requires
        initialize_outcome(init) is Ok,
        Some(ctx.weekly_pool) == (initialize_outcome(init)->Ok_0).weekly_pool,
    ensures
        declare_outcome(ctx, now) == Err::<DeclareWinnerView, CustomError>(CustomError::NoEntries),
{
}

} // verus!
