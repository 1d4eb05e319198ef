use curd::{
    declare_winner_at, Bank, BlogEntryState, CustomError, DeclareWinner, Identity, WeeklyPool,
    SPIN_COOLDOWN_SECS,
};

fn who(n: u8) -> Identity {
    Identity::new([n; 32])
}

fn entry_of(owner: Identity, tag: u32) -> BlogEntryState {
    BlogEntryState {
        owner,
        title: "winning".to_string(),
        ipfs_hash: "Qm".to_string(),
        random_number: tag,
        created_at: 17,
        tip: 1,
    }
}

/// A round of `total` in two entries, with the vault holding `held`.
fn round(total: u64, held: u64, winner: Identity, creator_wallet: Identity) -> DeclareWinner {
    let vault = who(200);
    let mut bank = Bank::new(vault);
    bank.set_balance(&vault, held);
    DeclareWinner {
        weekly_pool: WeeklyPool {
            creator: who(3),
            total_pool: total,
            total_entries: 2,
            last_winner_number: 0,
            last_spin_timestamp: 0,
        },
        bank,
        winner_blog: entry_of(winner, 54_321),
        winner,
        creator_wallet,
    }
}

#[test]
fn payee_other_than_the_entry_owner_is_refused() {
    let (a, b, c) = (who(1), who(2), who(3));
    let mut ctx = round(150, 150, a, c);
    ctx.winner = b;
    ctx.bank.set_balance(&b, 5);
    let ledger = ctx.weekly_pool;
    assert_eq!(declare_winner_at(&mut ctx, 1_000), Err(CustomError::WinnerMismatch));
    assert_eq!(ctx.weekly_pool, ledger);
    assert_eq!(ctx.bank.balance_of(&who(200)), 150);
    assert_eq!(ctx.bank.balance_of(&a), 0);
    assert_eq!(ctx.bank.balance_of(&b), 5);
    assert_eq!(ctx.bank.balance_of(&c), 0);
}

#[test]
fn identities_differing_in_one_byte_do_not_match() {
    let a = who(1);
    let mut bytes = a.to_bytes();
    bytes[31] = 2;
    let nearly = Identity::new(bytes);
    let mut ctx = round(150, 150, a, who(3));
    ctx.winner = nearly;
    assert_eq!(declare_winner_at(&mut ctx, 1_000), Err(CustomError::WinnerMismatch));
    ctx.winner = Identity::new([1; 32]);
    assert_eq!(declare_winner_at(&mut ctx, 1_000), Ok(()));
}

#[test]
fn empty_round_is_refused_before_the_cooldown_and_the_payee() {
    let (a, b, c) = (who(1), who(2), who(3));
    let mut ctx = round(0, 0, a, c);
    ctx.weekly_pool.total_entries = 0;
    ctx.weekly_pool.last_spin_timestamp = 900;
    ctx.winner = b;
    assert_eq!(declare_winner_at(&mut ctx, 1_000), Err(CustomError::NoEntries));
}

#[test]
fn cooldown_is_checked_before_the_payee() {
    let (a, b, c) = (who(1), who(2), who(3));
    let mut ctx = round(10, 10, a, c);
    ctx.weekly_pool.last_spin_timestamp = 900;
    ctx.winner = b;
    assert_eq!(declare_winner_at(&mut ctx, 1_000), Err(CustomError::SpinTooEarly));
    assert_eq!(
        declare_winner_at(&mut ctx, 900 + SPIN_COOLDOWN_SECS),
        Err(CustomError::WinnerMismatch)
    );
}

#[test]
fn cooldown_ends_after_seven_days_exactly() {
    let (a, c) = (who(1), who(3));
    let mut ctx = round(10, 10, a, c);
    ctx.weekly_pool.last_spin_timestamp = 5_000;
    ctx.weekly_pool.last_winner_number = 11_111;
    assert_eq!(SPIN_COOLDOWN_SECS, 7 * 24 * 60 * 60);
    assert_eq!(declare_winner_at(&mut ctx, 5_000), Err(CustomError::SpinTooEarly));
    assert_eq!(declare_winner_at(&mut ctx, 5_000 + 604_799), Err(CustomError::SpinTooEarly));
    assert_eq!(ctx.weekly_pool.last_winner_number, 11_111);
    assert_eq!(ctx.weekly_pool.last_spin_timestamp, 5_000);
    assert_eq!(declare_winner_at(&mut ctx, 5_000 + 604_800), Ok(()));
    assert_eq!(ctx.weekly_pool.last_winner_number, 54_321);
    assert_eq!(ctx.weekly_pool.last_spin_timestamp, 5_000 + 604_800);
}

#[test]
fn cooldown_holds_for_times_at_the_ends_of_the_range() {
    let (a, c) = (who(1), who(3));
    let mut ctx = round(10, 10, a, c);
    ctx.weekly_pool.last_spin_timestamp = i64::MAX;
    assert_eq!(declare_winner_at(&mut ctx, i64::MIN), Err(CustomError::SpinTooEarly));
    ctx.weekly_pool.last_spin_timestamp = i64::MIN;
    assert_eq!(declare_winner_at(&mut ctx, i64::MIN + 604_799), Err(CustomError::SpinTooEarly));
    assert_eq!(declare_winner_at(&mut ctx, i64::MAX), Ok(()));
    assert_eq!(ctx.weekly_pool.last_spin_timestamp, i64::MAX);
}

#[test]
fn winner_who_is_the_creator_receives_the_whole_pool() {
    let a = who(1);
    let mut ctx = round(150, 150, a, a);
    ctx.bank.set_balance(&a, 7);
    assert_eq!(declare_winner_at(&mut ctx, 1_000), Ok(()));
    assert_eq!(ctx.bank.balance_of(&a), 157);
    assert_eq!(ctx.bank.balance_of(&who(200)), 0);
}

#[test]
fn vault_keeps_what_the_round_did_not_bring() {
    let (a, c) = (who(1), who(3));
    let mut ctx = round(150, 1_000, a, c);
    assert_eq!(declare_winner_at(&mut ctx, 1_000), Ok(()));
    assert_eq!(ctx.bank.balance_of(&who(200)), 850);
    assert_eq!(ctx.bank.balance_of(&a), 135);
    assert_eq!(ctx.bank.balance_of(&c), 15);
}

#[test]
fn vault_that_cannot_cover_the_pool_pays_nothing() {
    let (a, c) = (who(1), who(3));
    let mut ctx = round(150, 149, a, c);
    let ledger = ctx.weekly_pool;
    assert_eq!(declare_winner_at(&mut ctx, 1_000), Err(CustomError::InsufficientFunds));
    assert_eq!(ctx.weekly_pool, ledger);
    assert_eq!(ctx.bank.balance_of(&who(200)), 149);
    assert_eq!(ctx.bank.balance_of(&a), 0);
    assert_eq!(ctx.bank.balance_of(&c), 0);

    let mut ctx = round(150, 134, a, c);
    assert_eq!(declare_winner_at(&mut ctx, 1_000), Err(CustomError::InsufficientFunds));
    assert_eq!(ctx.bank.balance_of(&who(200)), 134);
    assert_eq!(ctx.bank.balance_of(&a), 0);
}

#[test]
fn winner_balance_that_would_overflow_stops_the_settlement() {
    let (a, c) = (who(1), who(3));
    let mut ctx = round(150, 150, a, c);
    ctx.bank.set_balance(&a, u64::MAX - 134);
    let ledger = ctx.weekly_pool;
    assert_eq!(declare_winner_at(&mut ctx, 1_000), Err(CustomError::Overflow));
    assert_eq!(ctx.weekly_pool, ledger);
    assert_eq!(ctx.bank.balance_of(&a), u64::MAX - 134);
    assert_eq!(ctx.bank.balance_of(&who(200)), 150);
    assert_eq!(ctx.bank.balance_of(&c), 0);
}

#[test]
fn creator_balance_that_would_overflow_takes_back_the_winner_part() {
    let (a, c) = (who(1), who(3));
    let mut ctx = round(150, 150, a, c);
    ctx.bank.set_balance(&a, 20);
    ctx.bank.set_balance(&c, u64::MAX - 14);
    let ledger = ctx.weekly_pool;
    assert_eq!(declare_winner_at(&mut ctx, 1_000), Err(CustomError::Overflow));
    assert_eq!(ctx.weekly_pool, ledger);
    assert_eq!(ctx.bank.balance_of(&a), 20);
    assert_eq!(ctx.bank.balance_of(&c), u64::MAX - 14);
    assert_eq!(ctx.bank.balance_of(&who(200)), 150);

    ctx.bank.set_balance(&c, u64::MAX - 15);
    assert_eq!(declare_winner_at(&mut ctx, 1_000), Ok(()));
    assert_eq!(ctx.bank.balance_of(&a), 155);
    assert_eq!(ctx.bank.balance_of(&c), u64::MAX);
    assert_eq!(ctx.bank.balance_of(&who(200)), 0);
}

#[test]
fn largest_pool_is_split_without_overflow() {
    let (a, c) = (who(1), who(3));
    let mut ctx = round(u64::MAX, u64::MAX, a, c);
    assert_eq!(declare_winner_at(&mut ctx, 1_000), Ok(()));
    assert_eq!(ctx.bank.balance_of(&a), 16_602_069_666_338_596_453);
    assert_eq!(ctx.bank.balance_of(&c), 1_844_674_407_370_955_162);
    assert_eq!(ctx.bank.balance_of(&who(200)), 0);
}

#[test]
fn round_without_funds_still_resets_the_ledger() {
    let (a, c) = (who(1), who(3));
    let mut ctx = round(0, 0, a, c);
    assert_eq!(declare_winner_at(&mut ctx, 1_000), Ok(()));
    assert_eq!(ctx.weekly_pool.total_entries, 0);
    assert_eq!(ctx.weekly_pool.last_winner_number, 54_321);
    assert_eq!(ctx.weekly_pool.last_spin_timestamp, 1_000);
    assert_eq!(ctx.bank.balance_of(&a), 0);
}
