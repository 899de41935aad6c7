//! A whole scan over a store that is held in memory.
//!
//! A [`Store`] records what the storage engine answered: the listing, the
//! opening, and what the iterator of each family yielded. [`scan_db`] is the
//! scan over such a record; [`scan_lines`] and [`scan_failure`] say, family by
//! family, which lines it prints and how it ends.

use crate::render::{
    failure_line, format_failure, string_views, scanning_line, summary_line, total_lines,
};
use crate::scan::{
    closing_lines, family_summary, lemma_totals_concat, lemma_totals_single, total_key_bytes,
    total_records, total_value_bytes, Failure, Phase, ScanError, ScanState, Scanner,
};
use crate::stats::{key_bytes_of, lemma_bytes_concat, value_bytes_of, Record};
use vstd::prelude::*;

verus! {

/// One column family as its iterator presented it.
pub struct Family {
    /// The family's name.
    pub name: String,
    /// The records that the iterator yielded, in storage order: key, then value.
    pub records: Vec<(Vec<u8>, Vec<u8>)>,
    /// The read error that ended the iteration after those records, if one did.
    pub read_error: Option<String>,
}

/// What the storage engine answered to a scan.
pub enum Store {
    /// The families could not be listed; the engine gave this message.
    Unlisted(String),
    /// The families were listed under these names, but the store could not be
    /// opened; the engine gave this message.
    Unopened(Vec<String>, String),
    /// The store was opened with these families, in the order of the listing.
    Opened(Vec<Family>),
}

/// A family as plain values.
pub struct FamilyView {
    /// The family's name.
    pub name: Seq<char>,
    /// The records that the iterator yielded, in storage order.
    pub records: Seq<Record>,
    /// The message of the read error that ended the iteration, if one did.
    pub read_error: Option<Seq<char>>,
}

/// A store as plain values.
pub enum StoreContent {
    /// The listing failed with this message.
    Unlisted(Seq<char>),
    /// The listing gave these names; the opening failed with this message.
    Unopened(Seq<Seq<char>>, Seq<char>),
    /// The store was opened with these families.
    Opened(Seq<FamilyView>),
}

/// The records of a family as pairs of byte sequences.
pub open spec fn record_views(records: Seq<(Vec<u8>, Vec<u8>)>) -> Seq<Record> {
    Seq::new(records.len(), |i: int| (records[i].0@, records[i].1@))
}

/// The families of a store as plain values, in the same order.
pub open spec fn family_views(families: Seq<Family>) -> Seq<FamilyView> {
    Seq::new(families.len(), |i: int| families[i]@)
}

impl View for Family {
    type V = FamilyView;

    open spec fn view(&self) -> FamilyView {
        FamilyView {
            name: self.name@,
            records: record_views(self.records@),
            read_error: match self.read_error {
                Some(message) => Some(message@),
                None => None,
            },
        }
    }
}

impl View for Store {
    type V = StoreContent;

    open spec fn view(&self) -> StoreContent {
        match self {
            Store::Unlisted(message) => StoreContent::Unlisted(message@),
            Store::Unopened(names, message) => StoreContent::Unopened(string_views(names@), message@),
            Store::Opened(families) => StoreContent::Opened(family_views(families@)),
        }
    }
}

/// The number of families that a scan reads to their end: those before the
/// first one whose iteration ended in a read error.
pub open spec fn sound_families(families: Seq<FamilyView>) -> nat
    decreases families.len(),
{
    if families.len() == 0 {
        0
    } else {
        let before = sound_families(families.drop_last());
        if before == families.len() - 1 && families.last().read_error is None {
            families.len()
        } else {
            before
        }
    }
}

/// The names of the families, in the same order.
pub open spec fn names_of(families: Seq<FamilyView>) -> Seq<Seq<char>> {
    Seq::new(families.len(), |i: int| families[i].name)
}

/// The records of the first `count` families.
pub open spec fn records_of(families: Seq<FamilyView>, count: nat) -> Seq<Seq<Record>> {
    Seq::new(count, |i: int| families[i].records)
}

/// The summary lines of the first `count` families.
pub open spec fn summaries(families: Seq<FamilyView>, count: nat) -> Seq<Seq<char>> {
    Seq::new(count, |i: int| family_summary(families[i].name, families[i].records))
}

impl StoreContent {
    /// The lines that a scan of this store prints, in order.
    pub open spec fn scan_lines(self) -> Seq<Seq<char>> {
        match self {
            StoreContent::Unlisted(_) => Seq::empty(),
            StoreContent::Unopened(names, _) => seq![scanning_line(names)],
            StoreContent::Opened(families) => {
                let sound = sound_families(families);
                seq![scanning_line(names_of(families))] + summaries(families, sound) + if sound
                    == families.len() {
                    closing_lines(records_of(families, sound))
                } else {
                    Seq::empty()
                }
            },
        }
    }

    /// The failure that ends a scan of this store, if one does.
    pub open spec fn scan_failure(self) -> Option<Failure> {
        match self {
            StoreContent::Unlisted(message) => Some(Failure::Open(message)),
            StoreContent::Unopened(_, message) => Some(Failure::Open(message)),
            StoreContent::Opened(families) => {
                let sound = sound_families(families);
                if sound == families.len() {
                    None
                } else {
                    Some(Failure::Read(families[sound as int].read_error->0))
                }
            },
        }
    }

    /// Everything that a run over this store writes: the lines of the scan,
    /// and after them the report of the failure, if the scan failed.
    pub open spec fn output(self) -> Seq<Seq<char>> {
        match self.scan_failure() {
            None => self.scan_lines(),
            Some(failure) => self.scan_lines().push(failure_line(failure.message())),
        }
    }

    /// The records that a scan of this store reads, family by family: all of
    /// every sound family, and those that precede the first read error.
    pub open spec fn scanned(self) -> Seq<Seq<Record>> {
        match self {
            StoreContent::Opened(families) => {
                let sound = sound_families(families);
                if sound == families.len() {
                    records_of(families, sound)
                } else {
                    records_of(families, sound + 1)
                }
            },
            _ => Seq::empty(),
        }
    }

    /// The counts of what a scan of this store reads fit 64-bit counters.
    pub open spec fn countable(self) -> bool {
        &&& total_records(self.scanned()) <= u64::MAX
        &&& total_key_bytes(self.scanned()) <= u64::MAX
        &&& total_value_bytes(self.scanned()) <= u64::MAX
    }
}

/// The first `sound_families` families have no read error; the one after
/// them, if there is one, has.
pub proof fn lemma_sound_families(families: Seq<FamilyView>)
    ensures
        sound_families(families) <= families.len(),
        forall|i: int|
            0 <= i < sound_families(families) ==> (#[trigger] families[i]).read_error is None,
        sound_families(families) < families.len() ==> families[sound_families(
            families,
        ) as int].read_error is Some,
    decreases families.len(),
{
    if families.len() > 0 {
        lemma_sound_families(families.drop_last());
        assert forall|i: int| 0 <= i < sound_families(families) implies (
        #[trigger] families[i]).read_error is None by {
            if i < families.len() - 1 {
                assert(families.drop_last()[i] == families[i]);
            }
        }
    }
}

/// A scan stops at the first read error: where the families before `first`
/// have none and the family at `first` has one, exactly `first` families are
/// read to their end, whatever follows.
pub proof fn lemma_first_read_error(families: Seq<FamilyView>, first: nat)
    requires
        first <= families.len(),
        forall|i: int| 0 <= i < first ==> (#[trigger] families[i]).read_error is None,
        first < families.len() ==> families[first as int].read_error is Some,
    ensures
        sound_families(families) == first,
{
    lemma_sound_families(families);
}

/// A store whose families cannot be listed gives a single line, the report
/// of the failure: no announcement, no summary, no totals.
pub proof fn lemma_unlisted_output(message: Seq<char>)
    ensures
        StoreContent::Unlisted(message).output() == seq![failure_line(message)],
{
}

/// A store that cannot be opened gives the announcement of its families and
/// then the report of the failure.
pub proof fn lemma_unopened_output(names: Seq<Seq<char>>, message: Seq<char>)
    ensures
        StoreContent::Unopened(names, message).output() == seq![
            scanning_line(names),
            failure_line(message),
        ],
{
}

/// A store without families gives the announcement with an empty list of
/// names, and totals of zero.
pub proof fn lemma_no_family_output()
    ensures
        StoreContent::Opened(Seq::empty()).output() == seq![scanning_line(Seq::empty())]
            + total_lines(0, 0, 0),
        StoreContent::Opened(Seq::empty()).scan_failure() is None,
{
}

/// A store with a single family that holds no record gives that family's
/// summary with three zeros, and totals of zero.
pub proof fn lemma_empty_family_output(name: Seq<char>)
    ensures
        ({
            let family = FamilyView { name, records: Seq::empty(), read_error: None };
            StoreContent::Opened(seq![family]).output() == seq![
                scanning_line(seq![name]),
                summary_line(name, 0, 0, 0),
            ] + total_lines(0, 0, 0)
        }),
{
    let family = FamilyView { name, records: Seq::empty(), read_error: None };
    let families = seq![family];
    lemma_all_sound_output(families);
    lemma_totals_single(family.records);
    assert(records_of(families, 1) =~= seq![family.records]);
}

/// A store of which every family is read to its end gives the announcement,
/// one summary for each family in the order of the listing, and the three
/// totals, which are the sums of the families' counters.
pub proof fn lemma_all_sound_output(families: Seq<FamilyView>)
    requires
        forall|i: int| 0 <= i < families.len() ==> (#[trigger] families[i]).read_error is None,
    ensures
        StoreContent::Opened(families).scan_failure() is None,
        StoreContent::Opened(families).output() == seq![scanning_line(names_of(families))]
            + summaries(families, families.len()) + closing_lines(
            records_of(families, families.len()),
        ),
{
    lemma_first_read_error(families, families.len());
}

/// A read error in the family at `failed` ends the scan there: the output is
/// the announcement, the summaries of the families before it, and the report
/// of the failure. Neither a summary of that family or of a later one nor any
/// total is part of it, however many records were read before the error.
pub proof fn lemma_read_error_output(families: Seq<FamilyView>, failed: nat)
    requires
        failed < families.len(),
        forall|i: int| 0 <= i < failed ==> (#[trigger] families[i]).read_error is None,
        families[failed as int].read_error is Some,
    ensures
        StoreContent::Opened(families).scan_failure() == Some(
            Failure::Read(families[failed as int].read_error->0),
        ),
        StoreContent::Opened(families).output() == (seq![scanning_line(names_of(families))]
            + summaries(families, failed)).push(
            failure_line(families[failed as int].read_error->0),
        ),
{
    lemma_first_read_error(families, failed);
}

/// Two scans of the same store print the same lines and end the same way.
pub proof fn lemma_scan_repeatable(store: Store, first: Report, second: Report)
    requires
        string_views(first.lines@) == store@.scan_lines(),
        first.failure() == store@.scan_failure(),
        string_views(second.lines@) == store@.scan_lines(),
        second.failure() == store@.scan_failure(),
    ensures
        string_views(first.lines@) == string_views(second.lines@),
        first.failure() == second.failure(),
        first.printed() == second.printed(),
        first.printed() == store@.output(),
{
}

/// What a scan wrote and how it ended.
pub struct Report {
    /// The lines that the scan printed, in order.
    pub lines: Vec<String>,
    /// Success, or the failure that stopped the scan.
    pub outcome: Result<(), ScanError>,
}

impl Report {
    /// The failure that stopped the scan, if one did.
    pub open spec fn failure(&self) -> Option<Failure> {
        match self.outcome {
            Ok(_) => None,
            Err(e) => Some(e@),
        }
    }

    /// Everything that the run writes: the lines of the scan, and after them
    /// the report of the failure, if the scan failed.
    pub open spec fn printed(&self) -> Seq<Seq<char>> {
        match self.failure() {
            None => string_views(self.lines@),
            Some(failure) => string_views(self.lines@).push(failure_line(failure.message())),
        }
    }

    /// Everything that the run writes, as lines of their own.
    pub fn output(&self) -> (out: Vec<String>)
        ensures
            string_views(out@) == self.printed(),
    {
        let mut out = copy_names(&self.lines);
        match &self.outcome {
            Ok(_) => {},
            Err(e) => {
                out.push(format_failure(e.message()));
            },
        }
        out
    }
}

/// A copy of `names`.
fn copy_names(names: &Vec<String>) -> (copy: Vec<String>)
    ensures
        string_views(copy@) == string_views(names@),
{
    let mut copy: Vec<String> = Vec::new();
    let mut i: usize = 0;
    while i < names.len()
        invariant
            i <= names.len(),
            copy@.len() == i,
            forall|j: int| 0 <= j < i ==> (#[trigger] copy@[j])@ == names@[j]@,
        decreases names.len() - i,
    {
        copy.push(names[i].clone());
        i = i + 1;
    }
    copy
}

/// The names of `families`, in the same order.
fn family_names(families: &Vec<Family>) -> (names: Vec<String>)
    ensures
        string_views(names@) == names_of(family_views(families@)),
{
    let mut names: Vec<String> = Vec::new();
    let mut i: usize = 0;
    while i < families.len()
        invariant
            i <= families.len(),
            names@.len() == i,
            forall|j: int| 0 <= j < i ==> (#[trigger] names@[j])@ == families@[j].name@,
        decreases families.len() - i,
    {
        names.push(families[i].name.clone());
        i = i + 1;
    }
    names
}

/// Hands the records of `family` to the scan, one by one, for as long as the
/// counters have room. Tells whether all of them were handed over.
fn read_records(scanner: &mut Scanner, family: &Family) -> (complete: bool)
    requires
        old(scanner).wf(),
        old(scanner)@.phase == Phase::Reading,
        old(scanner)@.current.len() == 0,
    ensures
        final(scanner).wf(),
        complete <==> {
            &&& total_records(old(scanner)@.done) + family@.records.len() <= u64::MAX
            &&& total_key_bytes(old(scanner)@.done) + key_bytes_of(family@.records) <= u64::MAX
            &&& total_value_bytes(old(scanner)@.done) + value_bytes_of(family@.records)
                <= u64::MAX
        },
        complete ==> final(scanner)@ == (ScanState {
            current: family@.records,
            ..old(scanner)@
        }),
{
    let ghost all = family@.records;
    let ghost start = scanner@;
    let mut j: usize = 0;
    assert(scanner@.current =~= all.take(0));
    while j < family.records.len()
        invariant
            j <= family.records.len(),
            all == family@.records,
            all.len() == family.records@.len(),
            scanner.wf(),
            scanner@ == (ScanState { current: all.take(j as int), ..start }),
            start == old(scanner)@,
            start.phase == Phase::Reading,
        decreases family.records.len() - j,
    {
        let key = family.records[j].0.as_slice();
        let value = family.records[j].1.as_slice();
        proof {
            let next = all.take(j + 1);
            assert(next.drop_last() =~= all.take(j as int));
            assert(all =~= next + all.skip(j + 1));
            lemma_bytes_concat(next, all.skip(j + 1));
            assert(all.take(j as int).push((key@, value@)) =~= next);
        }
        if !scanner.has_room(key, value) {
            return false;
        }
        scanner.entry(key, value);
        j = j + 1;
    }
    proof {
        assert(all.take(j as int) =~= all);
        scanner.lemma_state();
    }
    true
}

/// What a scan reads of the first family after `count` sound ones is part of
/// what the scan reads in all; where that family ends in a read error, or is
/// the last one, nothing else is.
proof fn lemma_scanned_covers(families: Seq<FamilyView>, count: nat)
    requires
        count < families.len(),
        forall|i: int| 0 <= i < count ==> (#[trigger] families[i]).read_error is None,
    ensures
        total_records(records_of(families, count)) + families[count as int].records.len()
            <= total_records(StoreContent::Opened(families).scanned()),
        total_key_bytes(records_of(families, count)) + key_bytes_of(
            families[count as int].records,
        ) <= total_key_bytes(StoreContent::Opened(families).scanned()),
        total_value_bytes(records_of(families, count)) + value_bytes_of(
            families[count as int].records,
        ) <= total_value_bytes(StoreContent::Opened(families).scanned()),
        (families[count as int].read_error is Some || count + 1 == families.len())
            ==> StoreContent::Opened(families).scanned() == records_of(families, count).push(
            families[count as int].records,
        ),
{
    lemma_sound_families(families);
    let scanned = StoreContent::Opened(families).scanned();
    let upto = records_of(families, count + 1);
    assert(upto.drop_last() =~= records_of(families, count));
    assert(scanned =~= upto + scanned.skip(count as int + 1));
    lemma_totals_concat(upto, scanned.skip(count as int + 1));
    if families[count as int].read_error is Some {
        lemma_first_read_error(families, count);
    }
}

/// Scans a store that is held in memory, as [`scan_db`] does, where the counts
/// of what the scan reads fit 64-bit counters. Where they do not, there is no
/// report.
pub fn scan_db_checked(store: &Store) -> (result: Option<Report>)
    ensures
        result is Some <==> store@.countable(),
        result matches Some(report) ==> {
            &&& string_views(report.lines@) == store@.scan_lines()
            &&& report.failure() == store@.scan_failure()
            &&& report.printed() == store@.output()
        },
{
    let mut scanner = Scanner::new();
    let mut lines: Vec<String> = Vec::new();
    match store {
        Store::Unlisted(message) => {
            scanner.list_failed(message.clone());
        },
        Store::Unopened(names, message) => {
            let line = scanner.listed(copy_names(names));
            lines.push(line);
            scanner.open_failed(message.clone());
        },
        Store::Opened(families) => {
            let ghost views = family_views(families@);
            let line = scanner.listed(family_names(families));
            lines.push(line);
            let mut closing = scanner.opened();
            lines.append(&mut closing);
            proof {
                if families@.len() == 0 {
                    lemma_first_read_error(views, 0);
                }
            }
            let mut i: usize = 0;
            while scanner.phase() == Phase::Reading
                invariant
                    views == family_views(families@),
                    store@ == StoreContent::Opened(views),
                    scanner.wf(),
                    i <= families.len(),
                    scanner@.names == names_of(views),
                    scanner@.done == records_of(views, i as nat),
                    scanner@.current.len() == 0,
                    scanner@.phase == Phase::Reading || scanner@.phase == Phase::Finished,
                    forall|j: int| 0 <= j < i ==> (#[trigger] views[j]).read_error is None,
                    scanner@.phase == Phase::Reading ==> {
                        &&& scanner@.failure is None
                        &&& string_views(lines@) == seq![scanning_line(names_of(views))] + summaries(
                            views,
                            i as nat,
                        )
                    },
                    scanner@.phase == Phase::Finished ==> {
                        &&& string_views(lines@) == store@.scan_lines()
                        &&& scanner@.failure == store@.scan_failure()
                        &&& store@.countable()
                    },
                decreases
                        families.len() - i + if scanner@.phase == Phase::Reading {
                            1nat
                        } else {
                            0nat
                        },
            {
                proof {
                    scanner.lemma_state();
                    lemma_scanned_covers(views, i as nat);
                    let grown = records_of(views, i as nat).push(views[i as int].records);
                    assert(grown.drop_last() =~= records_of(views, i as nat));
                }
                let family = &families[i];
                if !read_records(&mut scanner, family) {
                    return None;
                }
                match &family.read_error {
                    Some(message) => {
                        scanner.read_failed(message.clone());
                        proof {
                            lemma_first_read_error(views, i as nat);
                        }
                    },
                    None => {
                        let mut more = scanner.end_of_family();
                        let ghost head = string_views(lines@);
                        let ghost rest = string_views(more@);
                        lines.append(&mut more);
                        proof {
                            assert(string_views(lines@) =~= head + rest);
                            if i + 1 == families.len() {
                                lemma_first_read_error(views, (i + 1) as nat);
                                scanner.lemma_state();
                            }
                        }
                        i = i + 1;
                    },
                }
            }
        },
    }
    let outcome = scanner.outcome();
    Some(Report { lines, outcome })
}

/// Scans a store that is held in memory.
///
/// The scan announces the families, reads them in the order of the listing,
/// prints the summary of each family that it read to its end, and after the
/// last one the three totals. The first failure ends it: nothing is printed
/// after that point, and the failure is returned.
pub fn scan_db(store: &Store) -> (report: Report)
    requires
        store@.countable(),
    ensures
        string_views(report.lines@) == store@.scan_lines(),
        report.failure() == store@.scan_failure(),
        report.printed() == store@.output(),
{
    scan_db_checked(store).unwrap()
}

} // verus!
