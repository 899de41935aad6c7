//! The counters of a scan: one set per column family, one for the whole store.

use crate::render::{format_summary, format_totals, string_views, summary_line, total_lines};
use vstd::prelude::*;

verus! {

/// A record as the store hands it out: the bytes of its key and of its value.
pub type Record = (Seq<u8>, Seq<u8>);

/// The sum of the key lengths of `records`.
pub open spec fn key_bytes_of(records: Seq<Record>) -> nat
    decreases records.len(),
{
    if records.len() == 0 {
        0
    } else {
        key_bytes_of(records.drop_last()) + records.last().0.len()
    }
}

/// The sum of the value lengths of `records`.
pub open spec fn value_bytes_of(records: Seq<Record>) -> nat
    decreases records.len(),
{
    if records.len() == 0 {
        0
    } else {
        value_bytes_of(records.drop_last()) + records.last().1.len()
    }
}

/// The byte counts of two runs of records read one after the other are the
/// sums of the byte counts of each run.
pub proof fn lemma_bytes_concat(first: Seq<Record>, second: Seq<Record>)
    ensures
        key_bytes_of(first + second) == key_bytes_of(first) + key_bytes_of(second),
        value_bytes_of(first + second) == value_bytes_of(first) + value_bytes_of(second),
    decreases second.len(),
{
    if second.len() > 0 {
        lemma_bytes_concat(first, second.drop_last());
        assert((first + second).drop_last() =~= first + second.drop_last());
    }
}

/// The counters of one column family.
pub struct ColumnFamilyStat {
    pub name: String,
    pub record_count: u64,
    pub key_bytes: u64,
    pub value_bytes: u64,
}

/// The counters of the whole store.
pub struct AggregateStat {
    pub record_count: u64,
    pub key_bytes: u64,
    pub value_bytes: u64,
}

impl ColumnFamilyStat {
    /// The counters are those of a family that holds exactly `records`.
    pub open spec fn counts(&self, records: Seq<Record>) -> bool {
        &&& self.record_count == records.len()
        &&& self.key_bytes == key_bytes_of(records)
        &&& self.value_bytes == value_bytes_of(records)
    }

    /// The counters can take one more record with this key and value.
    pub open spec fn has_room(&self, key: Seq<u8>, value: Seq<u8>) -> bool {
        &&& self.record_count < u64::MAX
        &&& self.key_bytes + key.len() <= u64::MAX
        &&& self.value_bytes + value.len() <= u64::MAX
    }

    /// The counters of a family of which nothing has been read yet.
    pub fn new(name: String) -> (stat: ColumnFamilyStat)
        ensures
            stat.name == name,
            stat.counts(Seq::empty()),
    {
        ColumnFamilyStat { name, record_count: 0, key_bytes: 0, value_bytes: 0 }
    }

    /// Tells whether `record` may be called with this key and value.
    pub fn can_record(&self, key: &[u8], value: &[u8]) -> (room: bool)
        ensures
            room == self.has_room(key@, value@),
    {
        self.record_count < u64::MAX && key.len() as u64 <= u64::MAX - self.key_bytes
            && value.len() as u64 <= u64::MAX - self.value_bytes
    }

    /// Counts one record: one more record, and the lengths of its key and value.
    pub fn record(&mut self, key: &[u8], value: &[u8])
        requires
            old(self).has_room(key@, value@),
        ensures
            final(self).name == old(self).name,
            final(self).record_count == old(self).record_count + 1,
            final(self).key_bytes == old(self).key_bytes + key@.len(),
            final(self).value_bytes == old(self).value_bytes + value@.len(),
            forall|records: Seq<Record>|
                old(self).counts(records) ==> #[trigger] final(self).counts(
                    records.push((key@, value@)),
                ),
    {
        self.record_count = self.record_count + 1;
        self.key_bytes = self.key_bytes + key.len() as u64;
        self.value_bytes = self.value_bytes + value.len() as u64;
        proof {
            assert forall|records: Seq<Record>| old(self).counts(records) implies #[trigger] self.counts(
                records.push((key@, value@)),
            ) by {
                assert(records.push((key@, value@)).drop_last() =~= records);
            }
        }
    }

    /// The summary line of this family.
    pub fn summary(&self) -> (line: String)
        ensures
            line@ == summary_line(
                self.name@,
                self.record_count as nat,
                self.key_bytes as nat,
                self.value_bytes as nat,
            ),
    {
        format_summary(self.name.as_str(), self.record_count, self.key_bytes, self.value_bytes)
    }
}

impl AggregateStat {
    /// The totals can take the counters of `stat` on top.
    pub open spec fn has_room(&self, stat: &ColumnFamilyStat) -> bool {
        &&& self.record_count + stat.record_count <= u64::MAX
        &&& self.key_bytes + stat.key_bytes <= u64::MAX
        &&& self.value_bytes + stat.value_bytes <= u64::MAX
    }

    /// The totals of a scan that has finished no family yet.
    pub fn new() -> (total: AggregateStat)
        ensures
            total.record_count == 0,
            total.key_bytes == 0,
            total.value_bytes == 0,
    {
        AggregateStat { record_count: 0, key_bytes: 0, value_bytes: 0 }
    }

    /// Tells whether `absorb` may be called with `stat`.
    pub fn can_absorb(&self, stat: &ColumnFamilyStat) -> (room: bool)
        ensures
            room == self.has_room(stat),
    {
        stat.record_count <= u64::MAX - self.record_count && stat.key_bytes <= u64::MAX
            - self.key_bytes && stat.value_bytes <= u64::MAX - self.value_bytes
    }

    /// Adds the counters of a finished family to the totals.
    pub fn absorb(&mut self, stat: &ColumnFamilyStat)
        requires
            old(self).has_room(stat),
        ensures
            final(self).record_count == old(self).record_count + stat.record_count,
            final(self).key_bytes == old(self).key_bytes + stat.key_bytes,
            final(self).value_bytes == old(self).value_bytes + stat.value_bytes,
    {
        self.record_count = self.record_count + stat.record_count;
        self.key_bytes = self.key_bytes + stat.key_bytes;
        self.value_bytes = self.value_bytes + stat.value_bytes;
    }

    /// The three closing lines of a scan with these totals.
    pub fn lines(&self) -> (lines: Vec<String>)
        ensures
            string_views(lines@) == total_lines(
                self.record_count as nat,
                self.key_bytes as nat,
                self.value_bytes as nat,
            ),
    {
        format_totals(self.record_count, self.key_bytes, self.value_bytes)
    }
}

} // verus!
