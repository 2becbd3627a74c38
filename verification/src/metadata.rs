//! The package table of the metadata store, and the transaction that counts
//! a download.
//!
//! The store runs each transaction as one unit, so requests that arrive
//! together are counted one after the other in some order. [`PackageTable`]
//! holds the rows in memory; the same decision, [`account`], is what a
//! transaction against a real store takes between its read and its write.

use vstd::prelude::*;
use crate::error::DownloadError;

verus! {

/// One row of the package table.
#[derive(Debug, Clone, PartialEq, Eq)]
pub struct PackageRecord {
    /// The name under which the package was published. Never changes.
    pub name: String,
    /// The key by which the package is looked up.
    pub canonical_name: String,
    /// How many downloads have been counted.
    pub downloads: i64,
}

/// The mathematical value of a row.
pub struct Row {
    pub name: Seq<char>,
    pub canonical_name: Seq<char>,
    pub downloads: int,
}

impl View for PackageRecord {
    type V = Row;

    open spec fn view(&self) -> Row {
        Row { name: self.name@, canonical_name: self.canonical_name@, downloads: self.downloads as int }
    }
}

/// The index of the first row from `from` on whose canonical name is `key`,
/// or the number of rows if there is none.
pub open spec fn scan(rows: Seq<Row>, key: Seq<char>, from: int) -> int
    decreases rows.len() - from,
{
    if from < 0 || from >= rows.len() {
        rows.len() as int
    } else if rows[from].canonical_name == key {
        from
    } else {
        scan(rows, key, from + 1)
    }
}

/// Where the package with this canonical name stands in the table.
pub open spec fn position(rows: Seq<Row>, key: Seq<char>) -> int {
    scan(rows, key, 0)
}

/// Whether the table has a record under this canonical name.
pub open spec fn present(rows: Seq<Row>, key: Seq<char>) -> bool {
    position(rows, key) < rows.len()
}

/// The download counter of the package, 0 for one that is not recorded.
pub open spec fn counter(rows: Seq<Row>, key: Seq<char>) -> int {
    if present(rows, key) {
        rows[position(rows, key)].downloads
    } else {
        0
    }
}

/// A row with one more download counted.
pub open spec fn bumped(row: Row) -> Row {
    Row { name: row.name, canonical_name: row.canonical_name, downloads: row.downloads + 1 }
}

/// The table after one transaction for `key`: the package's counter is one
/// higher, and a table without the package is as it was.
pub open spec fn recorded(rows: Seq<Row>, key: Seq<char>) -> Seq<Row> {
    if present(rows, key) {
        rows.update(position(rows, key), bumped(rows[position(rows, key)]))
    } else {
        rows
    }
}

/// What a transaction writes back: the package's name and its new counter.
#[derive(Debug, Clone, PartialEq, Eq)]
pub struct CounterUpdate {
    pub name: String,
    pub downloads: i64,
}

/// The decision inside the transaction. `row` is what the lookup by
/// `canonical_name` read in this transaction: the package's name and counter,
/// or nothing. A package that is there gets the counter that was read plus
/// one; one that is not there fails the request, and nothing is to be written.
/// The counter that was read must leave room for one more.
pub fn account(canonical_name: String, row: Option<(String, i64)>) -> (decision: Result<
    CounterUpdate,
    DownloadError,
>)
    requires
        row matches Some(read) ==> read.1 < i64::MAX,
    ensures
        decision == match row {
            Some(read) => Ok::<CounterUpdate, DownloadError>(
                CounterUpdate { name: read.0, downloads: (read.1 + 1) as i64 },
            ),
            None => Err::<CounterUpdate, DownloadError>(
                DownloadError::PackageNotFound { name: canonical_name },
            ),
        },
{
    match row {
        Some((name, downloads)) => Ok(CounterUpdate { name, downloads: downloads + 1 }),
        None => Err(DownloadError::PackageNotFound { name: canonical_name }),
    }
}

/// The package table, held in memory.
#[derive(Debug, Clone, PartialEq, Eq)]
pub struct PackageTable {
    rows: Vec<PackageRecord>,
}

impl View for PackageTable {
    type V = Seq<Row>;

    closed spec fn view(&self) -> Seq<Row> {
        self.rows@.map_values(|r: PackageRecord| r@)
    }
}

impl PackageTable {
    /// No counter is negative, and no canonical name stands in two rows.
    pub open spec fn wf(&self) -> bool {
        &&& forall|i: int| 0 <= i < self@.len() ==> (#[trigger] self@[i]).downloads >= 0
        &&& forall|i: int, j: int|
            0 <= i < j < self@.len() ==> (#[trigger] self@[i]).canonical_name != (
            #[trigger] self@[j]).canonical_name
    }

    /// A table without rows.
    pub fn new() -> (table: PackageTable)
        ensures
            table@ == Seq::<Row>::empty(),
            table.wf(),
    {
        let table = PackageTable { rows: Vec::new() };
        assert(table@ =~= Seq::<Row>::empty());
        table
    }

    /// The index of the package's row, or the number of rows.
    fn locate(&self, canonical_name: &String) -> (at: usize)
        ensures
            at == position(self@, canonical_name@),
            at <= self.rows@.len(),
            self.rows@.len() == self@.len(),
    {
        let n: usize = self.rows.len();
        let mut i: usize = 0;
        while i < n
            invariant
                n == self.rows@.len(),
                i <= n,
                position(self@, canonical_name@) == scan(self@, canonical_name@, i as int),
            decreases n - i,
        {
            if self.rows[i].canonical_name == *canonical_name {
                return i;
            }
            i = i + 1;
        }
        i
    }

    /// Point lookup: the package's record, if the table has one.
    pub fn find_by_canonical_name(&self, canonical_name: &String) -> (found: Option<&PackageRecord>)
        ensures
            (found is Some) == present(self@, canonical_name@),
            found matches Some(record) ==> record@ == self@[position(self@, canonical_name@)]
                && record.canonical_name@ == canonical_name@,
    {
        let at: usize = self.locate(canonical_name);
        proof {
            lemma_scan_finds(self@, canonical_name@, 0);
        }
        if at < self.rows.len() {
            Some(&self.rows[at])
        } else {
            None
        }
    }

    /// The package's download counter, if the table has the package.
    pub fn downloads(&self, canonical_name: &String) -> (count: Option<i64>)
        ensures
            (count is Some) == present(self@, canonical_name@),
            count matches Some(n) ==> n == counter(self@, canonical_name@),
    {
        let at: usize = self.locate(canonical_name);
        if at < self.rows.len() {
            Some(self.rows[at].downloads)
        } else {
            None
        }
    }

    /// Adds a package. Refused, with the table unchanged, where the counter
    /// is negative or the canonical name is taken.
    pub fn insert(&mut self, record: PackageRecord) -> (added: bool)
        requires
            old(self).wf(),
        ensures
            final(self).wf(),
            added == (record.downloads >= 0 && !present(old(self)@, record.canonical_name@)),
            added ==> final(self)@ == old(self)@.push(record@),
            !added ==> final(self)@ == old(self)@,
    {
        if record.downloads < 0 {
            return false;
        }
        let at: usize = self.locate(&record.canonical_name);
        if at < self.rows.len() {
            return false;
        }
        self.rows.push(record);
        assert(self@ =~= old(self)@.push(record@));
        proof {
            assert forall|i: int| 0 <= i < old(self)@.len() implies (#[trigger] old(self)@[i]).canonical_name
                != record.canonical_name@ by {
                lemma_scan_skips(old(self)@, record.canonical_name@, 0, i);
            }
        }
        true
    }

    /// The transaction of a download: looks the package up by its canonical
    /// name and, if it is there, raises its counter by one, from the value
    /// that this same lookup read. Returns the name under which the package
    /// is stored. Without the package nothing is changed. The package's
    /// counter must leave room for one more.
    pub fn increment_downloads_in_transaction(&mut self, canonical_name: &String) -> (done: Result<
        String,
        DownloadError,
    >)
        requires
            old(self).wf(),
            counter(old(self)@, canonical_name@) < i64::MAX,
        ensures
            final(self).wf(),
            final(self)@ == recorded(old(self)@, canonical_name@),
            present(old(self)@, canonical_name@) ==> (done matches Ok(name) && name@ == old(self)@[position(
                old(self)@,
                canonical_name@,
            )].name),
            !present(old(self)@, canonical_name@) ==> done == Err::<String, DownloadError>(
                DownloadError::PackageNotFound { name: *canonical_name },
            ),
    {
        let at: usize = self.locate(canonical_name);
        let read: Option<(String, i64)> = if at < self.rows.len() {
            Some((self.rows[at].name.clone(), self.rows[at].downloads))
        } else {
            None
        };
        match account(canonical_name.clone(), read) {
            Ok(update) => {
                let key = self.rows[at].canonical_name.clone();
                let stored = update.name.clone();
                self.rows.set(
                    at,
                    PackageRecord { name: update.name, canonical_name: key, downloads: update.downloads },
                );
                assert(self@ =~= recorded(old(self)@, canonical_name@));
                Ok(stored)
            },
            Err(error) => Err(error),
        }
    }
}


/// The table after a run of transactions, one for each key, in the order in
/// which the store took them.
pub open spec fn after_all(rows: Seq<Row>, keys: Seq<Seq<char>>) -> Seq<Row>
    decreases keys.len(),
{
    if keys.len() == 0 {
        rows
    } else {
        after_all(recorded(rows, keys.first()), keys.drop_first())
    }
}

/// How many of the keys are `key`.
pub open spec fn occurrences(keys: Seq<Seq<char>>, key: Seq<char>) -> int
    decreases keys.len(),
{
    if keys.len() == 0 {
        0
    } else {
        (if keys.first() == key { 1int } else { 0int }) + occurrences(keys.drop_first(), key)
    }
}

/// A scan ends inside the table on a row with the key, or behind the table.
pub proof fn lemma_scan_finds(rows: Seq<Row>, key: Seq<char>, from: int)
    requires
        0 <= from <= rows.len(),
    ensures
        from <= scan(rows, key, from) <= rows.len(),
        scan(rows, key, from) < rows.len() ==> rows[scan(rows, key, from)].canonical_name == key,
    decreases rows.len() - from,
{
    if from < rows.len() && rows[from].canonical_name != key {
        lemma_scan_finds(rows, key, from + 1);
    }
}

/// A scan passes over no row with the key.
pub proof fn lemma_scan_skips(rows: Seq<Row>, key: Seq<char>, from: int, at: int)
    requires
        0 <= from <= at < scan(rows, key, from),
        at < rows.len(),
    ensures
        rows[at].canonical_name != key,
    decreases rows.len() - from,
{
    if from < at {
        lemma_scan_skips(rows, key, from + 1, at);
    }
}

/// Writing a row back under its own canonical name moves no package.
proof fn lemma_scan_keeps(rows: Seq<Row>, key: Seq<char>, at: int, row: Row, from: int)
    requires
        0 <= at < rows.len(),
        0 <= from <= rows.len(),
        row.canonical_name == rows[at].canonical_name,
    ensures
        scan(rows.update(at, row), key, from) == scan(rows, key, from),
    decreases rows.len() - from,
{
    if from < rows.len() && rows[from].canonical_name != key {
        lemma_scan_keeps(rows, key, at, row, from + 1);
    }
}

/// One transaction counts once, and only for its own package: the counter of
/// the package that was asked for is one higher, every other counter is as it
/// was, and no package appears or disappears.
pub proof fn law_transaction_counts_once(rows: Seq<Row>, key: Seq<char>, other: Seq<char>)
    ensures
        recorded(rows, key).len() == rows.len(),
        present(recorded(rows, key), other) == present(rows, other),
        counter(recorded(rows, key), other) == counter(rows, other) + (if present(rows, key) && other
            == key {
            1int
        } else {
            0int
        }),
{
    lemma_scan_finds(rows, key, 0);
    lemma_scan_finds(rows, other, 0);
    if present(rows, key) {
        let at = position(rows, key);
        lemma_scan_keeps(rows, other, at, bumped(rows[at]), 0);
    }
}

/// A transaction for a package that is not recorded changes nothing.
pub proof fn law_absent_package_changes_nothing(rows: Seq<Row>, key: Seq<char>)
    requires
        !present(rows, key),
    ensures
        recorded(rows, key) == rows,
{
}

/// No lost and no doubled count: after any run of download transactions,
/// for this package and for others, in whatever order the store took them,
/// the package's counter has risen by exactly the number of downloads of
/// this package among them.
pub proof fn law_counter_counts_every_download(rows: Seq<Row>, keys: Seq<Seq<char>>, key: Seq<char>)
    requires
        present(rows, key),
    ensures
        present(after_all(rows, keys), key),
        counter(after_all(rows, keys), key) == counter(rows, key) + occurrences(keys, key),
    decreases keys.len(),
{
    if keys.len() > 0 {
        law_transaction_counts_once(rows, keys.first(), key);
        law_counter_counts_every_download(recorded(rows, keys.first()), keys.drop_first(), key);
    }
}

/// The same for downloads of one package only: `n` of them raise its
/// counter by `n`.
pub proof fn law_n_downloads_add_n(rows: Seq<Row>, keys: Seq<Seq<char>>, key: Seq<char>)
    requires
        present(rows, key),
        forall|i: int| 0 <= i < keys.len() ==> keys[i] == key,
    ensures
        counter(after_all(rows, keys), key) == counter(rows, key) + keys.len(),
    decreases keys.len(),
{
    if keys.len() > 0 {
        assert(keys.first() == key);
        law_transaction_counts_once(rows, key, key);
        law_n_downloads_add_n(recorded(rows, key), keys.drop_first(), key);
    }
}

/// Counters never fall.
pub proof fn law_counters_never_fall(rows: Seq<Row>, keys: Seq<Seq<char>>, key: Seq<char>)
    ensures
        counter(after_all(rows, keys), key) >= counter(rows, key),
    decreases keys.len(),
{
    if keys.len() > 0 {
        law_transaction_counts_once(rows, keys.first(), key);
        law_counters_never_fall(recorded(rows, keys.first()), keys.drop_first(), key);
    }
}

} // verus!
