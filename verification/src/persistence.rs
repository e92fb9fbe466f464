//! Journals: what actors persist of themselves.
//!
//! A journal is an ordered log of entries under a key. A storage provider
//! writes an entry, reads the newest snapshot, reads the messages from a
//! sequence number on, and deletes keys.
pub mod redis;

use crate::actor::message::MessageUnwrapErr;
use vstd::prelude::*;

verus! {

/// One entry of a journal.
#[derive(Debug)]
pub struct JournalEntry {
    pub sequence: i64,
    pub payload_type: String,
    pub bytes: Vec<u8>,
}

/// Takes an entry that was read from a store. A store holds nothing but
/// entries, so a value that does not decode to one is not expected here.
pub fn read_journal_entry(decoded: Result<JournalEntry, MessageUnwrapErr>) -> (entry: Option<
    JournalEntry,
>)
    requires
        decoded.is_ok(),
    ensures
        entry == Some(decoded.unwrap()),
{
    Some(decoded.unwrap())
}

/// The first of the values that a store returned, if it returned any.
pub fn first_value(data: Option<Vec<Vec<u8>>>) -> (value: Option<Vec<u8>>)
    ensures
        value == match data {
            Some(values) => if values@.len() > 0 {
                Some(values@[0])
            } else {
                None
            },
            None => None,
        },
{
    match data {
        Some(values) => {
            let mut values = values;
            if values.len() > 0 {
                Some(values.swap_remove(0))
            } else {
                None
            }
        },
        None => None,
    }
}

/// The entries behind `entries`, where every one of them is there.
pub open spec fn all_present(entries: Seq<Option<JournalEntry>>) -> Option<Seq<JournalEntry>> {
    if forall|i: int| 0 <= i < entries.len() ==> (#[trigger] entries[i]).is_some() {
        Some(entries.map_values(|e: Option<JournalEntry>| e.unwrap()))
    } else {
        None
    }
}

/// Collects the entries that were read; where one is missing, there is no
/// list at all.
pub fn collect_entries(entries: Vec<Option<JournalEntry>>) -> (all: Option<Vec<JournalEntry>>)
    ensures
        match all_present(entries@) {
            Some(present) => all matches Some(list) && list@ == present,
            None => all.is_none(),
        },
{
    let ghost given = entries@;
    let mut slots = entries;
    let mut list: Vec<JournalEntry> = Vec::new();
    let n = slots.len();
    let mut i: usize = 0;
    while i < n
        invariant
            i <= n,
            n == given.len(),
            given == entries@,
            slots@.len() == n,
            forall|j: int| i <= j < n ==> slots@[j] == given[j],
            forall|j: int| 0 <= j < i ==> (#[trigger] given[j]).is_some(),
            list@ == given.take(i as int).map_values(|e: Option<JournalEntry>| e.unwrap()),
        decreases n - i,
    {
        let mut taken: Option<JournalEntry> = None;
        std::mem::swap(&mut slots[i], &mut taken);
        match taken {
            Some(entry) => {
                list.push(entry);
                proof {
                    assert(given.take(i as int + 1) == given.take(i as int).push(given[i as int]));
                    assert(list@ =~= given.take(i as int + 1).map_values(
                        |e: Option<JournalEntry>| e.unwrap(),
                    ));
                }
            },
            None => {
                proof {
                    assert(given[i as int].is_none());
                    assert(all_present(given).is_none());
                }
                return None;
            },
        }
        i += 1;
    }
    proof {
        assert(given.take(i as int) == given);
    }
    Some(list)
}

} // verus!
