//! The scan, one answer of the store at a time.
//!
//! A [`Scanner`] never touches the store. Its owner asks the store, in the
//! order that [`Scanner::phase`] gives, and reports each answer; the scanner
//! counts, and returns the lines that are due at that point.

use crate::render::{
    format_scanning, string_views, scanning_line, summary_line, total_lines,
};
use crate::stats::{key_bytes_of, value_bytes_of, AggregateStat, ColumnFamilyStat, Record};
use vstd::prelude::*;

verus! {

/// What a scan waits for.
#[derive(Clone, Copy, Debug, PartialEq, Eq, Structural)]
pub enum Phase {
    /// The list of the store's column families.
    Listing,
    /// The store being opened with the families that were listed.
    Opening,
    /// The next record of the family that is being read.
    Reading,
    /// Nothing: the scan has ended.
    Finished,
}

/// Why a scan failed, with the store's own message.
#[derive(Debug)]
pub enum ScanError {
    /// The families could not be listed, or the store could not be opened.
    Open(String),
    /// A record could not be read.
    Read(String),
}

/// A failure with its message as a sequence of characters.
pub enum Failure {
    /// The families could not be listed, or the store could not be opened.
    Open(Seq<char>),
    /// A record could not be read.
    Read(Seq<char>),
}

impl View for ScanError {
    type V = Failure;

    open spec fn view(&self) -> Failure {
        match self {
            ScanError::Open(message) => Failure::Open(message@),
            ScanError::Read(message) => Failure::Read(message@),
        }
    }
}

impl Failure {
    /// The store's message.
    pub open spec fn message(self) -> Seq<char> {
        match self {
            Failure::Open(message) => message,
            Failure::Read(message) => message,
        }
    }
}

impl ScanError {
    /// The store's message.
    pub fn message(&self) -> (message: &str)
        ensures
            message@ == self@.message(),
    {
        match self {
            ScanError::Open(message) => message.as_str(),
            ScanError::Read(message) => message.as_str(),
        }
    }
}

/// The number of records in all of `families`.
pub open spec fn total_records(families: Seq<Seq<Record>>) -> nat
    decreases families.len(),
{
    if families.len() == 0 {
        0
    } else {
        total_records(families.drop_last()) + families.last().len()
    }
}

/// The key bytes of all of `families`.
pub open spec fn total_key_bytes(families: Seq<Seq<Record>>) -> nat
    decreases families.len(),
{
    if families.len() == 0 {
        0
    } else {
        total_key_bytes(families.drop_last()) + key_bytes_of(families.last())
    }
}

/// The value bytes of all of `families`.
pub open spec fn total_value_bytes(families: Seq<Seq<Record>>) -> nat
    decreases families.len(),
{
    if families.len() == 0 {
        0
    } else {
        total_value_bytes(families.drop_last()) + value_bytes_of(families.last())
    }
}

/// The totals of a store are the sums of its families' counters: whichever
/// way the families are split in two, the totals of the whole are the totals
/// of the two parts added up.
pub proof fn lemma_totals_concat(first: Seq<Seq<Record>>, second: Seq<Seq<Record>>)
    ensures
        total_records(first + second) == total_records(first) + total_records(second),
        total_key_bytes(first + second) == total_key_bytes(first) + total_key_bytes(second),
        total_value_bytes(first + second) == total_value_bytes(first) + total_value_bytes(
            second,
        ),
    decreases second.len(),
{
    if second.len() > 0 {
        lemma_totals_concat(first, second.drop_last());
        assert((first + second).drop_last() =~= first + second.drop_last());
    }
}

/// The totals of a single family are that family's counters.
pub proof fn lemma_totals_single(records: Seq<Record>)
    ensures
        total_records(seq![records]) == records.len(),
        total_key_bytes(seq![records]) == key_bytes_of(records),
        total_value_bytes(seq![records]) == value_bytes_of(records),
{
    let none = Seq::<Seq<Record>>::empty();
    assert(seq![records].drop_last() =~= none);
    assert(total_records(none) == 0 && total_key_bytes(none) == 0 && total_value_bytes(none) == 0);
}

/// The summary line of the family `name` that holds `records`.
pub open spec fn family_summary(name: Seq<char>, records: Seq<Record>) -> Seq<char> {
    summary_line(name, records.len(), key_bytes_of(records), value_bytes_of(records))
}

/// The three closing lines of a scan that read `families`.
pub open spec fn closing_lines(families: Seq<Seq<Record>>) -> Seq<Seq<char>> {
    total_lines(total_records(families), total_key_bytes(families), total_value_bytes(families))
}

/// A scan as its owner sees it.
pub struct ScanState {
    /// What the scan waits for.
    pub phase: Phase,
    /// The families in the order of the listing.
    pub names: Seq<Seq<char>>,
    /// The records of each family that was read to its end, in that order.
    pub done: Seq<Seq<Record>>,
    /// The records read so far of the family that is being read.
    pub current: Seq<Record>,
    /// The failure that ended the scan, if one did.
    pub failure: Option<Failure>,
}

impl ScanState {
    /// One more record with this key and value fits the 64-bit counters.
    pub open spec fn has_room(self, key: Seq<u8>, value: Seq<u8>) -> bool {
        &&& total_records(self.done) + self.current.len() < u64::MAX
        &&& total_key_bytes(self.done) + key_bytes_of(self.current) + key.len() <= u64::MAX
        &&& total_value_bytes(self.done) + value_bytes_of(self.current) + value.len() <= u64::MAX
    }
}

/// A scan in progress.
pub struct Scanner {
    phase: Phase,
    names: Vec<String>,
    index: usize,
    current: ColumnFamilyStat,
    total: AggregateStat,
    error: Option<ScanError>,
    done: Ghost<Seq<Seq<Record>>>,
    read: Ghost<Seq<Record>>,
}

impl View for Scanner {
    type V = ScanState;

    closed spec fn view(&self) -> ScanState {
        ScanState {
            phase: self.phase,
            names: string_views(self.names@),
            done: self.done@,
            current: self.read@,
            failure: match self.error {
                Some(e) => Some(e@),
                None => None,
            },
        }
    }
}

impl Scanner {
    /// The counters agree with what was read, and the state with the phase.
    pub closed spec fn wf(&self) -> bool {
        &&& self.index == self.done@.len() <= self.names@.len()
        &&& self.total.record_count == total_records(self.done@)
        &&& self.total.key_bytes == total_key_bytes(self.done@)
        &&& self.total.value_bytes == total_value_bytes(self.done@)
        &&& self.error is Some ==> self.phase == Phase::Finished
        &&& self.phase == Phase::Listing ==> self.names@.len() == 0
        &&& (self.phase == Phase::Listing || self.phase == Phase::Opening) ==> self.done@.len()
            == 0
        &&& self.phase != Phase::Reading ==> self.read@.len() == 0
        &&& (self.phase == Phase::Finished && self.error is None) ==> self.done@.len()
            == self.names@.len()
        &&& self.phase == Phase::Reading ==> {
            &&& self.done@.len() < self.names@.len()
            &&& self.current.name@ == self.names@[self.done@.len() as int]@
            &&& self.current.counts(self.read@)
            &&& self.total.has_room(&self.current)
        }
    }

    /// What holds of every scan: the finished families are among the listed
    /// ones, a failure ends the scan, and a scan that ended without one has
    /// read every family.
    pub proof fn lemma_state(&self)
        requires
            self.wf(),
        ensures
            self@.done.len() <= self@.names.len(),
            self@.phase == Phase::Reading ==> self@.done.len() < self@.names.len(),
            self@.phase != Phase::Reading ==> self@.current.len() == 0,
            self@.failure is Some ==> self@.phase == Phase::Finished,
            (self@.phase == Phase::Finished && self@.failure is None) ==> self@.done.len()
                == self@.names.len(),
            (self@.phase == Phase::Listing || self@.phase == Phase::Opening) ==> self@.done.len()
                == 0,
            total_records(self@.done) + self@.current.len() <= u64::MAX,
            total_key_bytes(self@.done) + key_bytes_of(self@.current) <= u64::MAX,
            total_value_bytes(self@.done) + value_bytes_of(self@.current) <= u64::MAX,
    {
    }

    /// A scan that has not asked the store anything yet.
    pub fn new() -> (scanner: Scanner)
        ensures
            scanner.wf(),
            scanner@ == (ScanState {
                phase: Phase::Listing,
                names: Seq::empty(),
                done: Seq::empty(),
                current: Seq::empty(),
                failure: None,
            }),
    {
        let scanner = Scanner {
            phase: Phase::Listing,
            names: Vec::new(),
            index: 0,
            current: ColumnFamilyStat::new(String::new()),
            total: AggregateStat::new(),
            error: None,
            done: Ghost(Seq::empty()),
            read: Ghost(Seq::empty()),
        };
        assert(string_views(scanner.names@) =~= Seq::<Seq<char>>::empty());
        scanner
    }

    /// What the scan waits for.
    pub fn phase(&self) -> (phase: Phase)
        ensures
            phase == self@.phase,
    {
        self.phase
    }

    /// The name of the family that is being read.
    pub fn family(&self) -> (name: &str)
        requires
            self.wf(),
            self@.phase == Phase::Reading,
        ensures
            name@ == self@.names[self@.done.len() as int],
    {
        self.current.name.as_str()
    }

    /// How the scan ended: with success, or with the failure that stopped it.
    pub fn outcome(&self) -> (outcome: Result<(), ScanError>)
        requires
            self.wf(),
            self@.phase == Phase::Finished,
        ensures
            match outcome {
                Ok(_) => self@.failure is None,
                Err(e) => self@.failure == Some(e@),
            },
    {
        match &self.error {
            None => Ok(()),
            Some(ScanError::Open(message)) => Err(ScanError::Open(message.clone())),
            Some(ScanError::Read(message)) => Err(ScanError::Read(message.clone())),
        }
    }

    /// The store listed its families. The scan announces them and waits for the
    /// store to be opened.
    pub fn listed(&mut self, names: Vec<String>) -> (line: String)
        requires
            old(self).wf(),
            old(self)@.phase == Phase::Listing,
        ensures
            final(self).wf(),
            final(self)@ == (ScanState {
                phase: Phase::Opening,
                names: string_views(names@),
                ..old(self)@
            }),
            line@ == scanning_line(string_views(names@)),
    {
        let line = format_scanning(&names);
        self.names = names;
        self.phase = Phase::Opening;
        line
    }

    /// The store could not list its families. The scan ends; no line is due.
    pub fn list_failed(&mut self, message: String)
        requires
            old(self).wf(),
            old(self)@.phase == Phase::Listing,
        ensures
            final(self).wf(),
            final(self)@ == (ScanState {
                phase: Phase::Finished,
                failure: Some(Failure::Open(message@)),
                ..old(self)@
            }),
    {
        self.error = Some(ScanError::Open(message));
        self.phase = Phase::Finished;
    }

    /// The store was opened. The scan turns to the first family; where the
    /// store has none, it ends, and the closing lines are due.
    pub fn opened(&mut self) -> (lines: Vec<String>)
        requires
            old(self).wf(),
            old(self)@.phase == Phase::Opening,
        ensures
            final(self).wf(),
            final(self)@ == (ScanState {
                phase: if old(self)@.names.len() == 0 {
                    Phase::Finished
                } else {
                    Phase::Reading
                },
                ..old(self)@
            }),
            string_views(lines@) == if old(self)@.names.len() == 0 {
                closing_lines(Seq::empty())
            } else {
                Seq::empty()
            },
    {
        self.enter()
    }

    /// The store could not be opened. The scan ends; no line is due.
    pub fn open_failed(&mut self, message: String)
        requires
            old(self).wf(),
            old(self)@.phase == Phase::Opening,
        ensures
            final(self).wf(),
            final(self)@ == (ScanState {
                phase: Phase::Finished,
                failure: Some(Failure::Open(message@)),
                ..old(self)@
            }),
    {
        self.error = Some(ScanError::Open(message));
        self.phase = Phase::Finished;
    }

    /// Tells whether the counters can take one more record with this key and
    /// value.
    pub fn has_room(&self, key: &[u8], value: &[u8]) -> (room: bool)
        requires
            self.wf(),
            self@.phase == Phase::Reading,
        ensures
            room == self@.has_room(key@, value@),
    {
        let records: u64 = self.total.record_count + self.current.record_count;
        let keys: u64 = self.total.key_bytes + self.current.key_bytes;
        let values: u64 = self.total.value_bytes + self.current.value_bytes;
        records < u64::MAX && key.len() as u64 <= u64::MAX - keys && value.len() as u64
            <= u64::MAX - values
    }

    /// The store handed out the next record of the family that is being read.
    pub fn entry(&mut self, key: &[u8], value: &[u8])
        requires
            old(self).wf(),
            old(self)@.phase == Phase::Reading,
            old(self)@.has_room(key@, value@),
        ensures
            final(self).wf(),
            final(self)@ == (ScanState {
                current: old(self)@.current.push((key@, value@)),
                ..old(self)@
            }),
    {
        self.current.record(key, value);
        self.read = Ghost(self.read@.push((key@, value@)));
    }

    /// The family that is being read has no more records. Its summary is due.
    /// The scan turns to the next family; after the last one it ends, and the
    /// closing lines are due as well.
    pub fn end_of_family(&mut self) -> (lines: Vec<String>)
        requires
            old(self).wf(),
            old(self)@.phase == Phase::Reading,
        ensures
            final(self).wf(),
            final(self)@ == (ScanState {
                phase: if old(self)@.done.len() + 1 == old(self)@.names.len() {
                    Phase::Finished
                } else {
                    Phase::Reading
                },
                done: old(self)@.done.push(old(self)@.current),
                current: Seq::empty(),
                ..old(self)@
            }),
            string_views(lines@) == seq![
                family_summary(
                    old(self)@.names[old(self)@.done.len() as int],
                    old(self)@.current,
                ),
            ] + if old(self)@.done.len() + 1 == old(self)@.names.len() {
                closing_lines(old(self)@.done.push(old(self)@.current))
            } else {
                Seq::empty()
            },
    {
        assert(self.index < self.names.len());
        let summary = self.current.summary();
        self.total.absorb(&self.current);
        assert(self.done@.push(self.read@).drop_last() =~= self.done@);
        self.done = Ghost(self.done@.push(self.read@));
        self.read = Ghost(Seq::empty());
        self.index = self.index + 1;
        let mut lines = self.enter();
        lines.insert(0, summary);
        lines
    }

    /// The store could not read the next record. The scan ends at once: no
    /// summary of this family, no other family, no closing lines.
    pub fn read_failed(&mut self, message: String)
        requires
            old(self).wf(),
            old(self)@.phase == Phase::Reading,
        ensures
            final(self).wf(),
            final(self)@ == (ScanState {
                phase: Phase::Finished,
                current: Seq::empty(),
                failure: Some(Failure::Read(message@)),
                ..old(self)@
            }),
    {
        self.error = Some(ScanError::Read(message));
        self.read = Ghost(Seq::empty());
        self.phase = Phase::Finished;
    }

    /// Turns to the family after the finished ones, or ends the scan.
    fn enter(&mut self) -> (lines: Vec<String>)
        requires
            old(self).index == old(self).done@.len() <= old(self).names@.len(),
            old(self).total.record_count == total_records(old(self).done@),
            old(self).total.key_bytes == total_key_bytes(old(self).done@),
            old(self).total.value_bytes == total_value_bytes(old(self).done@),
            old(self).error is None,
            old(self).read@.len() == 0,
        ensures
            final(self).wf(),
            final(self)@ == (ScanState {
                phase: if old(self).done@.len() == old(self).names@.len() {
                    Phase::Finished
                } else {
                    Phase::Reading
                },
                ..old(self)@
            }),
            string_views(lines@) == if old(self).done@.len() == old(self).names@.len() {
                closing_lines(old(self).done@)
            } else {
                Seq::empty()
            },
    {
        let index = self.index;
        if index == self.names.len() {
            self.phase = Phase::Finished;
            self.total.lines()
        } else {
            self.current = ColumnFamilyStat::new(self.names[index].clone());
            self.phase = Phase::Reading;
            Vec::new()
        }
    }
}

} // verus!
