use curd::bank::Bank;
use curd::entry::{random_number, text_len, EntryStore, MAX_IPFS_HASH_LEN, MAX_TITLE_LEN};
use curd::pool::{creator_share, winner_share, WeeklyPool};
use curd::{CustomError, Identity};

fn ident(n: u8) -> Identity {
    Identity::new([n; 32])
}

#[test]
fn winner_share_is_ninety_percent_rounded_down() {
    assert_eq!(winner_share(0), 0);
    assert_eq!(winner_share(1), 0);
    assert_eq!(winner_share(9), 8);
    assert_eq!(winner_share(10), 9);
    assert_eq!(winner_share(99), 89);
    assert_eq!(winner_share(100), 90);
    assert_eq!(winner_share(101), 90);
    assert_eq!(winner_share(150), 135);
    assert_eq!(winner_share(u64::MAX), 16_602_069_666_338_596_453);
}

#[test]
fn creator_share_is_the_rest() {
    assert_eq!(creator_share(0), 0);
    assert_eq!(creator_share(1), 1);
    assert_eq!(creator_share(9), 1);
    assert_eq!(creator_share(100), 10);
    assert_eq!(creator_share(101), 11);
    assert_eq!(creator_share(150), 15);
    assert_eq!(creator_share(u64::MAX), 1_844_674_407_370_955_162);
    for total in [0u64, 1, 7, 99, 101, 12_345, u64::MAX - 1, u64::MAX] {
        assert_eq!(winner_share(total) as u128 + creator_share(total) as u128, total as u128);
    }
}

#[test]
fn random_number_has_five_digits() {
    assert_eq!(random_number(0), 10_000);
    assert_eq!(random_number(1), 10_001);
    assert_eq!(random_number(89_999), 99_999);
    assert_eq!(random_number(90_000), 10_000);
    assert_eq!(random_number(1_700_000_000), 90_000);
    assert_eq!(random_number(-1), 99_999);
    assert_eq!(random_number(-90_000), 10_000);
    assert_eq!(random_number(i64::MIN), 44_192);
    assert_eq!(random_number(i64::MAX), 65_807);
}

#[test]
fn text_len_counts_bytes() {
    assert_eq!(text_len(&String::new()), 0);
    assert_eq!(text_len(&"hello".to_string()), 5);
    assert_eq!(text_len(&"é".to_string()), 2);
    assert_eq!(text_len(&"€uro".to_string()), 6);
    assert_eq!(MAX_TITLE_LEN, 50);
    assert_eq!(MAX_IPFS_HASH_LEN, 100);
}

#[test]
fn new_ledger_is_fresh() {
    let pool = WeeklyPool::new(ident(3));
    assert_eq!(pool, WeeklyPool {
        creator: ident(3),
        total_pool: 0,
        total_entries: 0,
        last_winner_number: 0,
        last_spin_timestamp: 0,
    });
    assert!(!pool.in_cooldown(0));
    assert!(!pool.in_cooldown(i64::MIN));
}

#[test]
fn in_cooldown_compares_without_overflow() {
    let mut pool = WeeklyPool::new(ident(3));
    pool.last_spin_timestamp = 100;
    assert!(pool.in_cooldown(100));
    assert!(pool.in_cooldown(99));
    assert!(pool.in_cooldown(100 + 604_799));
    assert!(!pool.in_cooldown(100 + 604_800));
    assert!(pool.in_cooldown(i64::MIN));
    assert!(!pool.in_cooldown(i64::MAX));
    pool.last_spin_timestamp = -1;
    assert!(pool.in_cooldown(0));
    assert!(!pool.in_cooldown(604_799));
}

#[test]
fn identity_is_its_bytes() {
    let mut bytes = [0u8; 32];
    for (i, b) in bytes.iter_mut().enumerate() {
        *b = i as u8;
    }
    let id = Identity::new(bytes);
    assert_eq!(id.to_bytes(), bytes);
    assert_eq!(id, Identity::new(bytes));
    for i in 0..32 {
        let mut other = bytes;
        other[i] ^= 0x80;
        assert_ne!(id, Identity::new(other));
    }
}

#[test]
fn bank_starts_with_zero_balances() {
    let bank = Bank::new(ident(200));
    assert_eq!(bank.vault(), ident(200));
    assert_eq!(bank.balance_of(&ident(200)), 0);
    assert_eq!(bank.balance_of(&ident(1)), 0);
}

#[test]
fn set_balance_changes_one_balance() {
    let mut bank = Bank::new(ident(200));
    bank.set_balance(&ident(1), 10);
    bank.set_balance(&ident(2), 20);
    bank.set_balance(&ident(1), 11);
    assert_eq!(bank.balance_of(&ident(1)), 11);
    assert_eq!(bank.balance_of(&ident(2)), 20);
    assert_eq!(bank.balance_of(&ident(3)), 0);
    assert_eq!(bank.vault(), ident(200));
}

#[test]
fn transfer_moves_the_amount() {
    let mut bank = Bank::new(ident(200));
    bank.set_balance(&ident(1), 10);
    assert_eq!(bank.transfer(&ident(1), &ident(2), 4), Ok(()));
    assert_eq!(bank.balance_of(&ident(1)), 6);
    assert_eq!(bank.balance_of(&ident(2)), 4);
    assert_eq!(bank.transfer(&ident(1), &ident(2), 6), Ok(()));
    assert_eq!(bank.balance_of(&ident(1)), 0);
    assert_eq!(bank.balance_of(&ident(2)), 10);
    assert_eq!(bank.transfer(&ident(1), &ident(2), 0), Ok(()));
    assert_eq!(bank.balance_of(&ident(2)), 10);
}

#[test]
fn transfer_beyond_the_balance_fails() {
    let mut bank = Bank::new(ident(200));
    bank.set_balance(&ident(1), 10);
    assert_eq!(bank.transfer(&ident(1), &ident(2), 11), Err(CustomError::InsufficientFunds));
    assert_eq!(bank.transfer(&ident(3), &ident(2), 1), Err(CustomError::InsufficientFunds));
    assert_eq!(bank.transfer(&ident(1), &ident(1), 11), Err(CustomError::InsufficientFunds));
    assert_eq!(bank.balance_of(&ident(1)), 10);
    assert_eq!(bank.balance_of(&ident(2)), 0);
}

#[test]
fn transfer_that_overflows_the_payee_fails() {
    let mut bank = Bank::new(ident(200));
    bank.set_balance(&ident(1), 10);
    bank.set_balance(&ident(2), u64::MAX - 9);
    assert_eq!(bank.transfer(&ident(1), &ident(2), 10), Err(CustomError::Overflow));
    assert_eq!(bank.balance_of(&ident(1)), 10);
    assert_eq!(bank.balance_of(&ident(2)), u64::MAX - 9);
    assert_eq!(bank.transfer(&ident(1), &ident(2), 9), Ok(()));
    assert_eq!(bank.balance_of(&ident(2)), u64::MAX);
}

#[test]
fn transfer_to_oneself_changes_nothing() {
    let mut bank = Bank::new(ident(200));
    bank.set_balance(&ident(1), u64::MAX);
    assert_eq!(bank.transfer(&ident(1), &ident(1), u64::MAX), Ok(()));
    assert_eq!(bank.balance_of(&ident(1)), u64::MAX);
}

#[test]
fn transfer_both_makes_both_or_neither() {
    let (v, a, c) = (ident(200), ident(1), ident(3));
    let mut bank = Bank::new(v);
    bank.set_balance(&v, 100);
    assert_eq!(bank.transfer_both(&v, &a, 60, &c, 41), Err(CustomError::InsufficientFunds));
    assert_eq!(bank.balance_of(&v), 100);
    assert_eq!(bank.balance_of(&a), 0);
    assert_eq!(bank.balance_of(&c), 0);
    assert_eq!(bank.transfer_both(&v, &a, 60, &c, 40), Ok(()));
    assert_eq!(bank.balance_of(&v), 0);
    assert_eq!(bank.balance_of(&a), 60);
    assert_eq!(bank.balance_of(&c), 40);
}

#[test]
fn transfer_both_to_the_payer_itself() {
    let (v, c) = (ident(200), ident(3));
    let mut bank = Bank::new(v);
    bank.set_balance(&v, 100);
    assert_eq!(bank.transfer_both(&v, &v, 90, &c, 10), Ok(()));
    assert_eq!(bank.balance_of(&v), 90);
    assert_eq!(bank.balance_of(&c), 10);
    assert_eq!(bank.transfer_both(&v, &v, 90, &c, 91), Err(CustomError::InsufficientFunds));
    assert_eq!(bank.balance_of(&v), 90);
    assert_eq!(bank.balance_of(&c), 10);
}

#[test]
fn new_store_is_empty() {
    let store = EntryStore::new();
    assert_eq!(store.len(), 0);
    assert_eq!(store.get(0), None);
    assert_eq!(store.find(&"t".to_string(), &ident(1)), None);
}

#[test]
fn cloned_entry_equals_its_source() {
    let entry = curd::BlogEntryState {
        owner: ident(1),
        title: "title".to_string(),
        ipfs_hash: "hash".to_string(),
        random_number: 10_500,
        created_at: -3,
        tip: 9,
    };
    let copy = entry.clone();
    assert_eq!(copy, entry);
    assert_eq!(copy.title, "title");
    let mut other = entry.clone();
    other.tip = 10;
    assert_ne!(other, entry);
    let mut other = entry.clone();
    other.ipfs_hash = "hash2".to_string();
    assert_ne!(other, entry);
    let mut other = entry.clone();
    other.owner = ident(2);
    assert_ne!(other, entry);
}

#[test]
fn ledgers_are_equal_field_by_field() {
    let pool = WeeklyPool {
        creator: ident(3),
        total_pool: 5,
        total_entries: 1,
        last_winner_number: 12_000,
        last_spin_timestamp: 77,
    };
    assert_eq!(pool, pool.clone());
    assert_ne!(pool, WeeklyPool { total_pool: 6, ..pool });
    assert_ne!(pool, WeeklyPool { total_entries: 2, ..pool });
    assert_ne!(pool, WeeklyPool { last_winner_number: 12_001, ..pool });
    assert_ne!(pool, WeeklyPool { last_spin_timestamp: 78, ..pool });
    assert_ne!(pool, WeeklyPool { creator: ident(4), ..pool });
}
