//! A store in memory.

use vstd::prelude::*;
use vstd::map::*;
use crate::errors::{Error, ErrorKind};
use crate::store::KVStoreSync;
#[allow(unused_imports)]
use crate::store::{entry_key, EntryKey, Outcome, StoreView};
use crate::text::{copy_bytes, same_text};

verus! {

/// The words for an entry that is not there.
pub const MISSING_ENTRY: &'static str = "no such entry";

struct Row {
    primary: String,
    secondary: String,
    key: String,
    data: Vec<u8>,
}

impl Row {
    spec fn place(self) -> EntryKey {
        entry_key(self.primary@, self.secondary@, self.key@)
    }

    fn is_at(&self, primary: &str, secondary: &str, key: &str) -> (r: bool)
        ensures
            r == (self.place() == entry_key(primary@, secondary@, key@)),
    {
        same_text(self.primary.as_str(), primary) && same_text(self.secondary.as_str(), secondary)
            && same_text(self.key.as_str(), key)
    }
}

/// The entries that rows hold; a later row stands before an earlier one.
spec fn entries_of(rows: Seq<Row>) -> Map<EntryKey, Seq<u8>>
    decreases rows.len(),
{
    if rows.len() == 0 {
        Map::empty()
    } else {
        entries_of(rows.drop_last()).insert(rows.last().place(), rows.last().data@)
    }
}

/// What a store that never fails adds to its calls.
pub open spec fn calm_outcomes() -> spec_fn(nat) -> Outcome {
    |n: nat| Outcome { fault: None, missing: MISSING_ENTRY@, strict_removal: false }
}

/// A store that keeps its entries in memory. It never fails.
pub struct MemoryStore {
    rows: Vec<Row>,
    lazily_removed: Ghost<Set<EntryKey>>,
    calls: Ghost<nat>,
}

impl MemoryStore {
    /// An empty store.
    pub fn new() -> (r: MemoryStore)
        ensures
            r@.entries == Map::<EntryKey, Seq<u8>>::empty(),
            r@.lazily_removed == Set::<EntryKey>::empty(),
            r@.outcomes == calm_outcomes(),
            r@.calm(),
    {
        MemoryStore { rows: Vec::new(), lazily_removed: Ghost(Set::empty()), calls: Ghost(0) }
    }

    fn remove_rows(&mut self, primary: &str, secondary: &str, key: &str)
        ensures
            entries_of(final(self).rows@) == entries_of(old(self).rows@).remove(
                entry_key(primary@, secondary@, key@),
            ),
            final(self).calls == old(self).calls,
            final(self).lazily_removed == old(self).lazily_removed,
    {
        let ghost place = entry_key(primary@, secondary@, key@);
        let mut i: usize = 0;
        while i < self.rows.len()
            invariant
                i <= self.rows@.len(),
                place == entry_key(primary@, secondary@, key@),
                entries_of(self.rows@).remove(place) == entries_of(old(self).rows@).remove(place),
                forall|j: int| 0 <= j < i ==> (#[trigger] self.rows@[j]).place() != place,
                self.calls == old(self).calls,
                self.lazily_removed == old(self).lazily_removed,
            decreases self.rows@.len() - i,
        {
            if self.rows[i].is_at(primary, secondary, key) {
                proof {
                    row_is_removed(self.rows@, i as int);
                }
                self.rows.remove(i);
            } else {
                i = i + 1;
            }
        }
        proof {
            no_row_no_entry(self.rows@, place);
            assert(entries_of(self.rows@).remove(place) =~= entries_of(self.rows@));
        }
    }
}

proof fn row_is_removed(rows: Seq<Row>, i: int)
    requires
        0 <= i < rows.len(),
    ensures
        entries_of(rows.remove(i)).remove(rows[i].place()) == entries_of(rows).remove(
            rows[i].place(),
        ),
    decreases rows.len(),
{
    let place = rows[i].place();
    if i == rows.len() - 1 {
        assert(rows.remove(i) =~= rows.drop_last());
        assert(entries_of(rows.drop_last()).remove(place) =~= entries_of(rows).remove(place));
    } else {
        row_is_removed(rows.drop_last(), i);
        assert(rows.remove(i).drop_last() =~= rows.drop_last().remove(i));
        assert(rows.remove(i).last() == rows.last());
        let shorter = entries_of(rows.drop_last().remove(i));
        let longer = entries_of(rows.drop_last());
        let last = rows.last();
        let left = shorter.insert(last.place(), last.data@).remove(place);
        let right = longer.insert(last.place(), last.data@).remove(place);
        assert_maps_equal!(left, right, k => {
            assert(shorter.remove(place).contains_key(k) == longer.remove(place).contains_key(k));
            assert(shorter.remove(place)[k] == longer.remove(place)[k]);
        });
    }
}

proof fn no_row_no_entry(rows: Seq<Row>, place: EntryKey)
    requires
        forall|j: int| 0 <= j < rows.len() ==> (#[trigger] rows[j]).place() != place,
    ensures
        !entries_of(rows).contains_key(place),
    decreases rows.len(),
{
    if rows.len() > 0 {
        assert(rows[rows.len() - 1].place() != place);
        assert forall|j: int| 0 <= j < rows.drop_last().len() implies (
        #[trigger] rows.drop_last()[j]).place() != place by {
            assert(rows.drop_last()[j] == rows[j]);
        }
        no_row_no_entry(rows.drop_last(), place);
    }
}

impl KVStoreSync for MemoryStore {
    closed spec fn view(&self) -> StoreView {
        StoreView {
            entries: entries_of(self.rows@),
            lazily_removed: self.lazily_removed@,
            calls: self.calls@,
            outcomes: calm_outcomes(),
        }
    }

    fn read(&mut self, primary_namespace: &str, secondary_namespace: &str, key: &str) -> (r: Result<
        Vec<u8>,
        Error,
    >) {
        let ghost place = entry_key(primary_namespace@, secondary_namespace@, key@);
        self.calls = Ghost(self.calls@ + 1);
        let mut i: usize = self.rows.len();
        assert(self.rows@.take(i as int) =~= self.rows@);
        while i > 0
            invariant
                i <= self.rows@.len(),
                place == entry_key(primary_namespace@, secondary_namespace@, key@),
                self.rows == old(self).rows,
                self.lazily_removed == old(self).lazily_removed,
                self.calls@ == old(self).calls@ + 1,
                entries_of(self.rows@).contains_key(place) == entries_of(
                    self.rows@.take(i as int),
                ).contains_key(place),
                entries_of(self.rows@).contains_key(place) ==> entries_of(self.rows@)[place]
                    == entries_of(self.rows@.take(i as int))[place],
            decreases i,
        {
            proof {
                let first = self.rows@.take(i as int);
                assert(first.drop_last() =~= self.rows@.take(i - 1));
                assert(first.last() == self.rows@[i - 1]);
            }
            if self.rows[i - 1].is_at(primary_namespace, secondary_namespace, key) {
                return Ok(copy_bytes(&self.rows[i - 1].data));
            }
            i = i - 1;
        }
        Err(Error::Stated { kind: ErrorKind::NotFound, message: MISSING_ENTRY.to_owned() })
    }

    fn write(
        &mut self,
        primary_namespace: &str,
        secondary_namespace: &str,
        key: &str,
        data: Vec<u8>,
    ) -> (r: Result<(), Error>) {
        self.remove_rows(primary_namespace, secondary_namespace, key);
        let ghost before = self.rows@;
        let row = Row {
            primary: primary_namespace.to_owned(),
            secondary: secondary_namespace.to_owned(),
            key: key.to_owned(),
            data,
        };
        self.rows.push(row);
        self.lazily_removed = Ghost(self.lazily_removed@.remove(row.place()));
        self.calls = Ghost(self.calls@ + 1);
        proof {
            assert(self.rows@.drop_last() =~= before);
            assert(entries_of(self.rows@) =~= old(self)@.entries.insert(row.place(), row.data@));
        }
        Ok(())
    }

    fn remove(
        &mut self,
        primary_namespace: &str,
        secondary_namespace: &str,
        key: &str,
        lazy: bool,
    ) -> (r: Result<(), Error>) {
        let ghost place = entry_key(primary_namespace@, secondary_namespace@, key@);
        self.remove_rows(primary_namespace, secondary_namespace, key);
        self.lazily_removed = Ghost(
            if lazy {
                self.lazily_removed@.insert(place)
            } else {
                self.lazily_removed@.remove(place)
            },
        );
        self.calls = Ghost(self.calls@ + 1);
        Ok(())
    }
}

} // verus!
