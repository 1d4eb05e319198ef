//! Entry records and the store that keeps them by title and owner.

use vstd::prelude::*;
use vstd::std_specs::cmp::PartialEqSpecImpl;
use vstd::utf8::encode_utf8;
use crate::identity::Identity;

verus! {

/// Longest title, in bytes of its UTF-8 encoding.
pub const MAX_TITLE_LEN: usize = 50;

/// Longest content reference, in bytes of its UTF-8 encoding.
pub const MAX_IPFS_HASH_LEN: usize = 100;

/// Smallest selection tag.
pub const MIN_RANDOM_NUMBER: u32 = 10000;

/// Largest selection tag.
pub const MAX_RANDOM_NUMBER: u32 = 99999;

/// One participant's entry: what was submitted, by whom, and what was paid
/// into the pool with it. A record is written once and never changed.
///
/// Two records are equal where all their fields are; a clone is equal to what
/// it was made from.
#[derive(Debug, Eq)]
pub struct BlogEntryState {
    /// Who contributed the entry.
    pub owner: Identity,
    /// The label of the entry; with `owner` it addresses the record.
    pub title: String,
    /// A pointer to the content, which is kept elsewhere and never read here.
    pub ipfs_hash: String,
    /// The selection tag drawn for the entry when it was created.
    pub random_number: u32,
    /// When the entry was created.
    pub created_at: i64,
    /// The amount paid into the pool when the entry was created.
    pub tip: u64,
}

/// An entry record as a mathematical value.
pub struct EntryView {
    pub owner: Identity,
    pub title: Seq<char>,
    pub ipfs_hash: Seq<char>,
    pub random_number: u32,
    pub created_at: i64,
    pub tip: u64,
}

impl View for BlogEntryState {
    type V = EntryView;

    open spec fn view(&self) -> EntryView {
        EntryView {
            owner: self.owner,
            title: self.title@,
            ipfs_hash: self.ipfs_hash@,
            random_number: self.random_number,
            created_at: self.created_at,
            tip: self.tip,
        }
    }
}

impl Clone for BlogEntryState {
    fn clone(&self) -> (copy: Self)
        ensures
            copy@ == self@,
    {
        BlogEntryState {
            owner: self.owner,
            title: self.title.clone(),
            ipfs_hash: self.ipfs_hash.clone(),
            random_number: self.random_number,
            created_at: self.created_at,
            tip: self.tip,
        }
    }
}

impl PartialEq for BlogEntryState {
    fn eq(&self, other: &BlogEntryState) -> (r: bool) {
        self.owner == other.owner && self.title == other.title && self.ipfs_hash
            == other.ipfs_hash && self.random_number == other.random_number && self.created_at
            == other.created_at && self.tip == other.tip
    }
}

impl PartialEqSpecImpl for BlogEntryState {
    open spec fn obeys_eq_spec() -> bool {
        true
    }

    open spec fn eq_spec(&self, other: &BlogEntryState) -> bool {
        self@ == other@
    }
}

/// The number of bytes that the UTF-8 encoding of `text` takes.
pub open spec fn byte_len(text: Seq<char>) -> nat {
    encode_utf8(text).len()
}

/// The selection tag drawn at time `now`: the time reduced to the range of
/// five-digit numbers.
pub open spec fn random_number_at(now: i64) -> u32 {
    (now % 90000 + 10000) as u32
}

/// The record that a contribution of `tip` by `owner` at time `now` creates.
pub open spec fn new_entry(
    owner: Identity,
    title: Seq<char>,
    ipfs_hash: Seq<char>,
    tip: u64,
    now: i64,
) -> EntryView {
    EntryView {
        owner,
        title,
        ipfs_hash,
        random_number: random_number_at(now),
        created_at: now,
        tip,
    }
}

/// `i` is the first position in `entries` of a record with this title and owner.
pub open spec fn is_first_entry(
    entries: Seq<EntryView>,
    title: Seq<char>,
    owner: Identity,
    i: int,
) -> bool {
    &&& 0 <= i < entries.len()
    &&& entries[i].title == title
    &&& entries[i].owner == owner
    &&& forall|j: int|
        0 <= j < i ==> !(#[trigger] entries[j].title == title && entries[j].owner == owner)
}

/// Some record in `entries` has this title and owner.
pub open spec fn holds_entry(entries: Seq<EntryView>, title: Seq<char>, owner: Identity) -> bool {
    exists|i: int|
        0 <= i < entries.len() && #[trigger] entries[i].title == title && entries[i].owner == owner
}

/// No two records in `entries` have the same title and owner.
pub open spec fn distinct_entries(entries: Seq<EntryView>) -> bool {
    forall|i: int, j: int|
        0 <= i < j < entries.len() ==> !(#[trigger] entries[i].title == #[trigger] entries[j].title
            && entries[i].owner == entries[j].owner)
}

/// The number of bytes in `text`.
pub fn text_len(text: &String) -> (len: usize)
    ensures
        len == byte_len(text@),
{
    text.as_str().as_bytes().len()
}

/// Draws the selection tag for an entry created at time `now`.
///
/// The tag is `now` modulo 90000, taken in `0..90000` also where `now` is
/// negative, plus 10000: always a number of five digits.
pub fn random_number(now: i64) -> (tag: u32)
    ensures
        tag == random_number_at(now),
        MIN_RANDOM_NUMBER <= tag <= MAX_RANDOM_NUMBER,
{
    let reduced: i64 = now.checked_rem_euclid(90000).unwrap();
    (reduced + 10000) as u32
}

/// The entry records of a deployment, in the order of their creation.
///
/// A record is addressed by its title and owner.
#[derive(Debug)]
pub struct EntryStore {
    entries: Vec<BlogEntryState>,
}

impl View for EntryStore {
    type V = Seq<EntryView>;

    closed spec fn view(&self) -> Seq<EntryView> {
        self.entries@.map_values(|e: BlogEntryState| e@)
    }
}

impl EntryStore {
    /// A store without records.
    pub fn new() -> (store: EntryStore)
        ensures
            store@ == Seq::<EntryView>::empty(),
    {
        let store = EntryStore { entries: Vec::new() };
        assert(store@ =~= Seq::<EntryView>::empty());
        store
    }

    /// The number of records.
    pub fn len(&self) -> (len: usize)
        ensures
            len == self@.len(),
    {
        self.entries.len()
    }

    /// The record at position `index`, if there is one.
    pub fn get(&self, index: usize) -> (entry: Option<&BlogEntryState>)
        ensures
            match entry {
                Some(e) => index < self@.len() && e@ == self@[index as int],
                None => index >= self@.len(),
            },
    {
        if index < self.entries.len() {
            Some(&self.entries[index])
        } else {
            None
        }
    }

    /// The position of the record with this title and owner, if there is one.
    pub fn find(&self, title: &String, owner: &Identity) -> (found: Option<usize>)
        ensures
            match found {
                Some(i) => is_first_entry(self@, title@, *owner, i as int),
                None => !holds_entry(self@, title@, *owner),
            },
    {
        let mut i: usize = 0;
        while i < self.entries.len()
            invariant
                i <= self.entries@.len(),
                self@.len() == self.entries@.len(),
                forall|j: int|
                    0 <= j < i ==> !(#[trigger] self@[j].title == title@ && self@[j].owner
                        == *owner),
            decreases self.entries@.len() - i,
        {
            let entry = &self.entries[i];
            assert(self@[i as int] == entry@);
            if entry.owner == *owner && entry.title == *title {
                return Some(i);
            }
            i += 1;
        }
        None
    }

    /// Appends a record.
    pub(crate) fn append(&mut self, entry: BlogEntryState)
        ensures
            final(self)@ == old(self)@.push(entry@),
    {
        self.entries.push(entry);
        assert(self@ =~= old(self)@.push(entry@));
    }
}

} // verus!
