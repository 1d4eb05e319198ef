//! Balances held at identities, and the transfer between two of them.

use vstd::prelude::*;
use crate::error::CustomError;
use crate::identity::Identity;

verus! {

/// The balance recorded for one identity.
#[derive(Clone, Copy, Debug)]
struct Wallet {
    key: Identity,
    lamports: u64,
}

/// The balances of all identities, one of which is the pool's vault.
///
/// Every identity has a balance; it is zero until something was paid to it.
/// The view is the total map from identity to balance. The vault is the
/// identity at which the pool's funds are held; it is fixed when the bank is
/// made.
#[derive(Debug)]
pub struct Bank {
    vault: Identity,
    wallets: Vec<Wallet>,
}

/// `i` is the first position in `ws` that records a balance for `key`.
spec fn is_first(ws: Seq<Wallet>, key: Identity, i: int) -> bool {
    &&& 0 <= i < ws.len()
    &&& ws[i].key == key
    &&& forall|j: int| 0 <= j < i ==> ws[j].key != key
}

/// The balance that `ws` records for `key`: that of the first wallet with
/// this key, and zero where there is none.
spec fn balance_in(ws: Seq<Wallet>, key: Identity) -> u64 {
    if exists|i: int| is_first(ws, key, i) {
        ws[choose|i: int| is_first(ws, key, i)].lamports
    } else {
        0
    }
}

/// What two transfers from `from`, first of `first_amount` to `first` and then
/// of `second_amount` to `second`, make of the balances `m`, where both are
/// made or neither.
pub open spec fn transfer_both_outcome(
    m: Map<Identity, u64>,
    from: Identity,
    first: Identity,
    first_amount: u64,
    second: Identity,
    second_amount: u64,
) -> Result<Map<Identity, u64>, CustomError> {
    match transfer_outcome(m, from, first, first_amount) {
        Ok(m1) => transfer_outcome(m1, from, second, second_amount),
        Err(e) => Err(e),
    }
}

/// What a transfer of `amount` from `from` to `to` makes of the balances `m`.
///
/// The payer must hold the amount. A transfer to oneself changes nothing.
/// Otherwise the amount leaves the payer and reaches the payee, whose
/// balance must still fit into 64 bits.
pub open spec fn transfer_outcome(
    m: Map<Identity, u64>,
    from: Identity,
    to: Identity,
    amount: u64,
) -> Result<Map<Identity, u64>, CustomError> {
    if m[from] < amount {
        Err(CustomError::InsufficientFunds)
    } else if from == to {
        Ok(m)
    } else if m[to] + amount > u64::MAX {
        Err(CustomError::Overflow)
    } else {
        Ok(m.insert(from, (m[from] - amount) as u64).insert(to, (m[to] + amount) as u64))
    }
}

proof fn lemma_first_unique(ws: Seq<Wallet>, key: Identity, i: int, j: int)
    requires
        is_first(ws, key, i),
        is_first(ws, key, j),
    ensures
        i == j,
{
    if i < j {
        assert(ws[i].key != key);
    } else if j < i {
        assert(ws[j].key != key);
    }
}

proof fn lemma_balance_at_first(ws: Seq<Wallet>, key: Identity, i: int)
    requires
        is_first(ws, key, i),
    ensures
        balance_in(ws, key) == ws[i].lamports,
{
    let c = choose|c: int| is_first(ws, key, c);
    lemma_first_unique(ws, key, i, c);
}

proof fn lemma_balance_absent(ws: Seq<Wallet>, key: Identity)
    requires
        forall|j: int| 0 <= j < ws.len() ==> ws[j].key != key,
    ensures
        balance_in(ws, key) == 0,
{
    if exists|i: int| is_first(ws, key, i) {
        let c = choose|c: int| is_first(ws, key, c);
        assert(ws[c].key != key);
    }
}

/// Writing `lamports` at the first position of `key` changes the balance of
/// `key` and of no other identity.
proof fn lemma_balance_update(ws: Seq<Wallet>, key: Identity, i: int, lamports: u64, k: Identity)
    requires
        is_first(ws, key, i),
    ensures
        balance_in(ws.update(i, Wallet { key, lamports }), k) == if k == key {
            lamports
        } else {
            balance_in(ws, k)
        },
{
    let ws2 = ws.update(i, Wallet { key, lamports });
    assert(forall|j: int| 0 <= j < ws.len() ==> ws2[j].key == ws[j].key);
    if k == key {
        assert(is_first(ws2, key, i));
        lemma_balance_at_first(ws2, key, i);
    } else if exists|c: int| is_first(ws, k, c) {
        let c = choose|c: int| is_first(ws, k, c);
        assert(is_first(ws2, k, c));
        lemma_balance_at_first(ws2, k, c);
    } else {
        if exists|c: int| is_first(ws2, k, c) {
            let c = choose|c: int| is_first(ws2, k, c);
            assert(is_first(ws, k, c));
        }
    }
}

/// A wallet appended for a `key` that had none sets the balance of `key` and
/// of no other identity.
proof fn lemma_balance_push(ws: Seq<Wallet>, key: Identity, lamports: u64, k: Identity)
    requires
        forall|j: int| 0 <= j < ws.len() ==> ws[j].key != key,
    ensures
        balance_in(ws.push(Wallet { key, lamports }), k) == if k == key {
            lamports
        } else {
            balance_in(ws, k)
        },
{
    let ws2 = ws.push(Wallet { key, lamports });
    assert(forall|j: int| 0 <= j < ws.len() ==> ws2[j] == ws[j]);
    if k == key {
        assert(is_first(ws2, key, ws.len() as int));
        lemma_balance_at_first(ws2, key, ws.len() as int);
    } else if exists|c: int| is_first(ws, k, c) {
        let c = choose|c: int| is_first(ws, k, c);
        assert(is_first(ws2, k, c));
        lemma_balance_at_first(ws2, k, c);
    } else {
        if exists|c: int| is_first(ws2, k, c) {
            let c = choose|c: int| is_first(ws2, k, c);
            assert(is_first(ws, k, c));
        }
    }
}

impl View for Bank {
    type V = Map<Identity, u64>;

    closed spec fn view(&self) -> Map<Identity, u64> {
        Map::total(|key: Identity| balance_in(self.wallets@, key))
    }
}

impl Bank {
    /// The identity at which the pool's funds are held.
    pub closed spec fn vault_key(&self) -> Identity {
        self.vault
    }

    /// A bank with the given vault, in which every balance is zero.
    pub fn new(vault: Identity) -> (bank: Bank)
        ensures
            bank.vault_key() == vault,
            bank@ == Map::total(|key: Identity| 0u64),
    {
        let bank = Bank { vault, wallets: Vec::new() };
        assert forall|key: Identity| balance_in(bank.wallets@, key) == 0 by {
            lemma_balance_absent(bank.wallets@, key);
        }
        assert(bank@ =~= Map::total(|key: Identity| 0u64));
        bank
    }

    /// The first position that records a balance for `key`, if there is one.
    fn find(&self, key: &Identity) -> (found: Option<usize>)
        ensures
            match found {
                Some(i) => is_first(self.wallets@, *key, i as int),
                None => forall|j: int| 0 <= j < self.wallets@.len() ==> self.wallets@[j].key != *key,
            },
    {
        let mut i: usize = 0;
        while i < self.wallets.len()
            invariant
                i <= self.wallets@.len(),
                forall|j: int| 0 <= j < i ==> self.wallets@[j].key != *key,
            decreases self.wallets@.len() - i,
        {
            if self.wallets[i].key == *key {
                return Some(i);
            }
            i += 1;
        }
        None
    }

    /// Every identity has a balance.
    pub proof fn lemma_view_is_total(&self)
        ensures
            forall|key: Identity| self@.dom().contains(key),
    {
    }

    /// The identity at which the pool's funds are held.
    pub fn vault(&self) -> (vault: Identity)
        ensures
            vault == self.vault_key(),
    {
        self.vault
    }

    /// The balance of `key`.
    pub fn balance_of(&self, key: &Identity) -> (lamports: u64)
        ensures
            lamports == self@[*key],
    {
        match self.find(key) {
            Some(i) => {
                proof {
                    lemma_balance_at_first(self.wallets@, *key, i as int);
                }
                self.wallets[i].lamports
            },
            None => {
                proof {
                    lemma_balance_absent(self.wallets@, *key);
                }
                0
            },
        }
    }

    /// Sets the balance of `key` to `lamports` and leaves every other balance
    /// as it is.
    pub fn set_balance(&mut self, key: &Identity, lamports: u64)
        ensures
            final(self)@ == old(self)@.insert(*key, lamports),
            final(self).vault_key() == old(self).vault_key(),
    {
        let wallet = Wallet { key: *key, lamports };
        match self.find(key) {
            Some(i) => {
                self.wallets.set(i, wallet);
                assert forall|k: Identity|
                    balance_in(self.wallets@, k) == if k == *key {
                        lamports
                    } else {
                        balance_in(old(self).wallets@, k)
                    } by {
                    lemma_balance_update(old(self).wallets@, *key, i as int, lamports, k);
                }
            },
            None => {
                self.wallets.push(wallet);
                assert forall|k: Identity|
                    balance_in(self.wallets@, k) == if k == *key {
                        lamports
                    } else {
                        balance_in(old(self).wallets@, k)
                    } by {
                    lemma_balance_push(old(self).wallets@, *key, lamports, k);
                }
            },
        }
        assert(self@ =~= old(self)@.insert(*key, lamports));
    }

    /// Moves `amount` from the balance of `from` to that of `to`.
    ///
    /// Fails with `InsufficientFunds` where `from` holds less than `amount`,
    /// and with `Overflow` where the balance of another identity `to` would
    /// no longer fit into 64 bits. Nothing changes on failure.
    pub fn transfer(&mut self, from: &Identity, to: &Identity, amount: u64) -> (result: Result<
        (),
        CustomError,
    >)
        ensures
            match transfer_outcome(old(self)@, *from, *to, amount) {
                Ok(m) => result is Ok && final(self)@ == m,
                Err(e) => result == Err::<(), CustomError>(e) && *final(self) == *old(self),
            },
            final(self).vault_key() == old(self).vault_key(),
    {
        let payer: u64 = self.balance_of(from);
        if payer < amount {
            return Err(CustomError::InsufficientFunds);
        }
        if *from == *to {
            return Ok(());
        }
        let payee: u64 = self.balance_of(to);
        if payee > u64::MAX - amount {
            return Err(CustomError::Overflow);
        }
        self.set_balance(from, payer - amount);
        self.set_balance(to, payee + amount);
        Ok(())
    }

    /// Moves `first_amount` from `from` to `first` and then `second_amount`
    /// from `from` to `second`: both transfers are made, or neither.
    ///
    /// Where the second transfer fails the first one is taken back, so that on
    /// failure every balance is what it was.
    pub fn transfer_both(
        &mut self,
        from: &Identity,
        first: &Identity,
        first_amount: u64,
        second: &Identity,
        second_amount: u64,
    ) -> (result: Result<(), CustomError>)
        ensures
            match transfer_both_outcome(
                old(self)@,
                *from,
                *first,
                first_amount,
                *second,
                second_amount,
            ) {
                Ok(m) => result is Ok && final(self)@ == m,
                Err(e) => result == Err::<(), CustomError>(e) && final(self)@ == old(self)@,
            },
            final(self).vault_key() == old(self).vault_key(),
    {
        match self.transfer(from, first, first_amount) {
            Ok(()) => {},
            Err(e) => {
                return Err(e);
            },
        }
        match self.transfer(from, second, second_amount) {
            Ok(()) => Ok(()),
            Err(e) => {
                let _undone = self.transfer(first, from, first_amount);
                assert(_undone is Ok);
                assert(self@ =~= old(self)@);
                Err(e)
            },
        }
    }
}

} // verus!
