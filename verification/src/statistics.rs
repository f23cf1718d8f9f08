//! The daily series: one row per calendar day, the log that keeps the
//! rows from one run to the next, and the peer histogram that is shown
//! beside them.

use vstd::prelude::*;
use vstd::string::*;
use crate::data::texts_of;
use crate::peers::{agent_names, counts_of, AgentCount, AgentCountView};
use crate::text::{decimal, format_number, same_text};

verus! {

/// One day of the series, as text ready for display and for storage.
#[derive(Debug, Clone, PartialEq, Eq)]
pub struct DayRow {
    /// The day's key.
    pub date: String,
    /// Graph rate in thousands of graphs per second.
    pub hashrate: String,
    /// Transactions of the day.
    pub txns: String,
    /// Fees of the day in coins.
    pub fees: String,
    /// Unspent outputs.
    pub utxos: String,
    /// Kernels on the chain.
    pub kernels: String,
}

/// A `DayRow` as plain values.
pub struct DayRowView {
    pub date: Seq<char>,
    pub hashrate: Seq<char>,
    pub txns: Seq<char>,
    pub fees: Seq<char>,
    pub utxos: Seq<char>,
    pub kernels: Seq<char>,
}

impl View for DayRow {
    type V = DayRowView;

    open spec fn view(&self) -> DayRowView {
        DayRowView {
            date: self.date@,
            hashrate: self.hashrate@,
            txns: self.txns@,
            fees: self.fees@,
            utxos: self.utxos@,
            kernels: self.kernels@,
        }
    }
}

/// The rows of a sequence as plain values.
pub open spec fn rows_of(v: Seq<DayRow>) -> Seq<DayRowView> {
    Seq::new(v.len(), |i: int| v[i]@)
}

/// The columns of a row.
#[derive(Debug, Clone, Copy, PartialEq, Eq, Structural)]
pub enum Column {
    Date,
    Hashrate,
    Txns,
    Fees,
    Utxos,
    Kernels,
}

/// What a row holds in a column.
pub open spec fn cell(row: DayRowView, column: Column) -> Seq<char> {
    match column {
        Column::Date => row.date,
        Column::Hashrate => row.hashrate,
        Column::Txns => row.txns,
        Column::Fees => row.fees,
        Column::Utxos => row.utxos,
        Column::Kernels => row.kernels,
    }
}

/// One column of a series: a sequence as long as the series.
pub open spec fn column_of(days: Seq<DayRowView>, column: Column) -> Seq<Seq<char>> {
    Seq::new(days.len(), |i: int| cell(days[i], column))
}

/// Whether a row of `rows` carries the date `date`.
pub open spec fn has_date(rows: Seq<DayRowView>, date: Seq<char>) -> bool {
    exists|i: int| 0 <= i < rows.len() && #[trigger] rows[i].date == date
}

/// No two rows carry the same date.
pub open spec fn distinct_dates(rows: Seq<DayRowView>) -> bool {
    forall|i: int, j: int|
        0 <= i < j < rows.len() ==> #[trigger] rows[i].date != #[trigger] rows[j].date
}

/// How many rows carry the date `date`.
pub open spec fn rows_dated(rows: Seq<DayRowView>, date: Seq<char>) -> nat
    decreases rows.len(),
{
    if rows.len() == 0 {
        0
    } else {
        rows_dated(rows.drop_last(), date) + if rows.last().date == date {
            1nat
        } else {
            0nat
        }
    }
}

/// The rows after `row` was written with insert-if-absent: unchanged where
/// its date is there already, and with `row` at the end otherwise.
pub open spec fn written(rows: Seq<DayRowView>, row: DayRowView) -> Seq<DayRowView> {
    if has_date(rows, row.date) {
        rows
    } else {
        rows.push(row)
    }
}

/// Whether `today` differs from the date of the last day of the series;
/// an empty series has no last day, so any date differs.
pub open spec fn day_changed(days: Seq<DayRowView>, today: Seq<char>) -> bool {
    days.len() == 0 || days.last().date != today
}

/// The series after a cycle that saw the date `row.date`: one row more
/// where the day has changed, and the same series where it has not.
pub open spec fn rolled(days: Seq<DayRowView>, row: DayRowView) -> Seq<DayRowView> {
    if day_changed(days, row.date) {
        days.push(row)
    } else {
        days
    }
}

/// Where the last `span` days of a series of `len` days begin.
pub open spec fn span_start(len: nat, span: nat) -> int {
    if len > span {
        len - span
    } else {
        0
    }
}

/// The last `span` days of a series; all of it where it is shorter.
pub open spec fn last_days(days: Seq<DayRowView>, span: nat) -> Seq<DayRowView> {
    days.subrange(span_start(days.len(), span), days.len() as int)
}

/// The log of daily rows as storage keeps it: in the order of insertion,
/// one row for a date.
#[derive(Debug)]
pub struct StatsLog {
    rows: Vec<DayRow>,
}

impl View for StatsLog {
    type V = Seq<DayRowView>;

    closed spec fn view(&self) -> Seq<DayRowView> {
        rows_of(self.rows@)
    }
}

impl StatsLog {
    /// Every date of the log stands in one row only.
    #[verifier::type_invariant]
    pub closed spec fn unique(&self) -> bool {
        distinct_dates(rows_of(self.rows@))
    }

    /// An empty log.
    pub fn new() -> (log: StatsLog)
        ensures
            log@ == Seq::<DayRowView>::empty(),
    {
        let log = StatsLog { rows: Vec::new() };
        log
    }

    /// Number of rows.
    pub fn len(&self) -> (n: usize)
        ensures
            n == self@.len(),
    {
        self.rows.len()
    }

    /// Whether the log holds a row for `date`.
    pub fn contains(&self, date: &str) -> (found: bool)
        ensures
            found == has_date(self@, date@),
    {
        let mut i: usize = 0;
        while i < self.rows.len()
            invariant
                i <= self.rows@.len(),
                forall|k: int| 0 <= k < i ==> (#[trigger] rows_of(self.rows@)[k]).date != date@,
            decreases self.rows@.len() - i,
        {
            if same_text(self.rows[i].date.as_str(), date) {
                assert(rows_of(self.rows@)[i as int].date == date@);
                return true;
            }
            i = i + 1;
        }
        false
    }

    /// Writes `row` unless a row of its date is there: the write of a day
    /// that was written before changes nothing. Tells whether it wrote.
    pub fn insert_or_ignore(&mut self, row: DayRow) -> (inserted: bool)
        ensures
            final(self)@ == written(old(self)@, row@),
            inserted == !has_date(old(self)@, row.date@),
            distinct_dates(old(self)@),
            distinct_dates(final(self)@),
    {
        proof {
            use_type_invariant(&*self);
        }
        if self.contains(row.date.as_str()) {
            false
        } else {
            let ghost before = rows_of(self.rows@);
            let ghost added = row@;
            let mut rows: Vec<DayRow> = Vec::new();
            core::mem::swap(&mut self.rows, &mut rows);
            rows.push(row);
            proof {
                let after = rows_of(rows@);
                assert(after =~= before.push(added));
            }
            core::mem::swap(&mut self.rows, &mut rows);
            true
        }
    }

    /// The rows in the order in which they were written.
    pub fn read_rows(&self) -> (rows: Vec<DayRow>)
        ensures
            rows_of(rows@) == self@,
            distinct_dates(self@),
    {
        proof {
            use_type_invariant(self);
        }
        let mut rows: Vec<DayRow> = Vec::new();
        let mut i: usize = 0;
        while i < self.rows.len()
            invariant
                i <= self.rows@.len(),
                rows@.len() == i,
                forall|k: int| 0 <= k < i ==> (#[trigger] rows@[k])@ == self.rows@[k]@,
            decreases self.rows@.len() - i,
        {
            rows.push(copy_row(&self.rows[i]));
            i = i + 1;
        }
        rows
    }
}

/// A copy of a row.
pub fn copy_row(row: &DayRow) -> (copy: DayRow)
    ensures
        copy@ == row@,
{
    DayRow {
        date: row.date.clone(),
        hashrate: row.hashrate.clone(),
        txns: row.txns.clone(),
        fees: row.fees.clone(),
        utxos: row.utxos.clone(),
        kernels: row.kernels.clone(),
    }
}

/// The daily series and the peer histogram.
#[derive(Debug, Clone, PartialEq, Eq)]
pub struct Statistics {
    /// The days, oldest first.
    pub days: Vec<DayRow>,
    /// The peer histogram, most frequent agent first.
    pub peers: Vec<AgentCount>,
    /// Number of peers counted in the histogram.
    pub total: u64,
}

/// A `Statistics` as plain values.
pub struct StatisticsView {
    pub days: Seq<DayRowView>,
    pub peers: Seq<AgentCountView>,
    pub total: u64,
}

impl View for Statistics {
    type V = StatisticsView;

    open spec fn view(&self) -> StatisticsView {
        StatisticsView {
            days: rows_of(self.days@),
            peers: counts_of(self.peers@),
            total: self.total,
        }
    }
}

/// The counts of a histogram in decimal notation, line by line.
pub open spec fn count_labels(peers: Seq<AgentCountView>) -> Seq<Seq<char>> {
    Seq::new(peers.len(), |i: int| decimal(peers[i].count as nat))
}

/// The agents of a histogram, line by line.
pub open spec fn agent_labels(peers: Seq<AgentCountView>) -> Seq<Seq<char>> {
    Seq::new(peers.len(), |i: int| peers[i].agent)
}

impl Statistics {
    /// A series without days and a histogram without peers.
    pub fn new() -> (statistics: Statistics)
        ensures
            statistics@ == (StatisticsView { days: Seq::empty(), peers: Seq::empty(), total: 0 }),
    {
        let statistics = Statistics { days: Vec::new(), peers: Vec::new(), total: 0 };
        assert(statistics@.days =~= Seq::empty());
        assert(statistics@.peers =~= Seq::empty());
        statistics
    }

    /// The series that a log holds, with an empty histogram.
    pub fn load(log: &StatsLog) -> (statistics: Statistics)
        ensures
            statistics@ == (StatisticsView { days: log@, peers: Seq::empty(), total: 0 }),
    {
        let statistics = Statistics { days: log.read_rows(), peers: Vec::new(), total: 0 };
        assert(statistics@.peers =~= Seq::empty());
        statistics
    }

    /// One column of the series, oldest day first.
    pub fn column(&self, column: Column) -> (cells: Vec<String>)
        ensures
            texts_of(cells@) == column_of(self@.days, column),
            cells@.len() == self.days@.len(),
    {
        let mut cells: Vec<String> = Vec::new();
        let mut i: usize = 0;
        while i < self.days.len()
            invariant
                i <= self.days@.len(),
                cells@.len() == i,
                forall|k: int| 0 <= k < i ==> (#[trigger] cells@[k])@ == cell(self.days@[k]@, column),
            decreases self.days@.len() - i,
        {
            let row = &self.days[i];
            let text = match column {
                Column::Date => row.date.clone(),
                Column::Hashrate => row.hashrate.clone(),
                Column::Txns => row.txns.clone(),
                Column::Fees => row.fees.clone(),
                Column::Utxos => row.utxos.clone(),
                Column::Kernels => row.kernels.clone(),
            };
            cells.push(text);
            i = i + 1;
        }
        cells
    }

    /// The dates of the series.
    pub fn date(&self) -> (cells: Vec<String>)
        ensures
            texts_of(cells@) == column_of(self@.days, Column::Date),
            cells@.len() == self.days@.len(),
    {
        self.column(Column::Date)
    }

    /// The graph rates of the series.
    pub fn hashrate(&self) -> (cells: Vec<String>)
        ensures
            texts_of(cells@) == column_of(self@.days, Column::Hashrate),
            cells@.len() == self.days@.len(),
    {
        self.column(Column::Hashrate)
    }

    /// The transaction counts of the series.
    pub fn txns(&self) -> (cells: Vec<String>)
        ensures
            texts_of(cells@) == column_of(self@.days, Column::Txns),
            cells@.len() == self.days@.len(),
    {
        self.column(Column::Txns)
    }

    /// The fees of the series.
    pub fn fees(&self) -> (cells: Vec<String>)
        ensures
            texts_of(cells@) == column_of(self@.days, Column::Fees),
            cells@.len() == self.days@.len(),
    {
        self.column(Column::Fees)
    }

    /// The unspent-output counts of the series.
    pub fn utxos(&self) -> (cells: Vec<String>)
        ensures
            texts_of(cells@) == column_of(self@.days, Column::Utxos),
            cells@.len() == self.days@.len(),
    {
        self.column(Column::Utxos)
    }

    /// The kernel counts of the series.
    pub fn kernels(&self) -> (cells: Vec<String>)
        ensures
            texts_of(cells@) == column_of(self@.days, Column::Kernels),
            cells@.len() == self.days@.len(),
    {
        self.column(Column::Kernels)
    }

    /// The user agents of the histogram, most frequent first.
    pub fn user_agent(&self) -> (names: Vec<String>)
        ensures
            texts_of(names@) == agent_labels(self@.peers),
    {
        let names = agent_names(&self.peers);
        names
    }

    /// The counts of the histogram in decimal notation, line by line.
    pub fn count(&self) -> (labels: Vec<String>)
        ensures
            texts_of(labels@) == count_labels(self@.peers),
    {
        let mut labels: Vec<String> = Vec::new();
        let mut i: usize = 0;
        while i < self.peers.len()
            invariant
                i <= self.peers@.len(),
                labels@.len() == i,
                forall|k: int|
                    0 <= k < i ==> (#[trigger] labels@[k])@ == decimal(self.peers@[k].count as nat),
            decreases self.peers@.len() - i,
        {
            labels.push(format_number(self.peers[i].count as u128));
            i = i + 1;
        }
        labels
    }

    /// Copies of the rows of the last `span` days, oldest first.
    pub fn last_rows(&self, span: usize) -> (rows: Vec<DayRow>)
        ensures
            rows_of(rows@) == last_days(self@.days, span as nat),
    {
        let len = self.days.len();
        let start: usize = if len > span {
            len - span
        } else {
            0
        };
        let mut rows: Vec<DayRow> = Vec::new();
        let mut i: usize = start;
        while i < len
            invariant
                start <= i <= len,
                len == self.days@.len(),
                rows@.len() == i - start,
                forall|k: int|
                    0 <= k < i - start ==> (#[trigger] rows@[k])@ == self.days@[start + k]@,
            decreases len - i,
        {
            rows.push(copy_row(&self.days[i]));
            i = i + 1;
        }
        rows
    }

    /// Cuts the series down to its last `span` days; a shorter series
    /// stays as it is.
    pub fn trim(&mut self, span: usize)
        ensures
            final(self)@ == (StatisticsView {
                days: last_days(old(self)@.days, span as nat),
                ..old(self)@
            }),
    {
        if self.days.len() > span {
            self.days = self.last_rows(span);
        } else {
            assert(last_days(self@.days, span as nat) =~= self@.days);
        }
    }

    /// Whether `today` is another day than the last of the series.
    pub fn day_changed(&self, today: &str) -> (changed: bool)
        ensures
            changed == day_changed(self@.days, today@),
    {
        let n = self.days.len();
        if n == 0 {
            true
        } else {
            !same_text(self.days[n - 1].date.as_str(), today)
        }
    }

    /// Ends a cycle that saw the date of `row`: appends `row` where the
    /// day has changed and leaves the series as it is where it has not.
    /// Tells whether it appended.
    pub fn roll(&mut self, row: DayRow) -> (appended: bool)
        ensures
            final(self)@ == (StatisticsView { days: rolled(old(self)@.days, row@), ..old(self)@ }),
            appended == day_changed(old(self)@.days, row.date@),
    {
        if self.day_changed(row.date.as_str()) {
            let ghost before = rows_of(self.days@);
            let ghost added = row@;
            self.days.push(row);
            assert(rows_of(self.days@) =~= before.push(added));
            true
        } else {
            false
        }
    }
}

/// The columns of a series are equally long, one cell for each day.
pub proof fn law_columns_equal_length(days: Seq<DayRowView>, a: Column, b: Column)
    ensures
        column_of(days, a).len() == days.len(),
        column_of(days, a).len() == column_of(days, b).len(),
{
}

/// Two cycles that see the same date append one row between them: the
/// first appends where the day has changed, the second never does.
pub proof fn law_one_row_per_day(days: Seq<DayRowView>, first: DayRowView, second: DayRowView)
    requires
        first.date == second.date,
    ensures
        rolled(rolled(days, first), second) == rolled(days, first),
        day_changed(days, first.date) ==> rolled(days, first).len() == days.len() + 1,
        !day_changed(days, first.date) ==> rolled(days, first) == days,
{
}

/// Counting the rows of a date over a sequence without that date.
proof fn lemma_dated_absent(rows: Seq<DayRowView>, date: Seq<char>)
    requires
        !has_date(rows, date),
    ensures
        rows_dated(rows, date) == 0,
    decreases rows.len(),
{
    if rows.len() > 0 {
        let front = rows.drop_last();
        lemma_dated_absent(front, date);
    }
}

/// Where the dates are distinct, a date that is there stands in one row.
proof fn lemma_dated_once(rows: Seq<DayRowView>, date: Seq<char>)
    requires
        distinct_dates(rows),
        has_date(rows, date),
    ensures
        rows_dated(rows, date) == 1,
    decreases rows.len(),
{
    let front = rows.drop_last();
    let at = choose|i: int| 0 <= i < rows.len() && #[trigger] rows[i].date == date;
    if rows.last().date == date {
        lemma_dated_absent(front, date);
    } else {
        assert(front[at].date == date);
        lemma_dated_once(front, date);
    }
}

/// Insert-if-absent is idempotent: writing the row of a date twice leaves
/// what the first write left, and that holds one row of the date.
pub proof fn law_written_once(rows: Seq<DayRowView>, row: DayRowView)
    requires
        distinct_dates(rows),
    ensures
        written(written(rows, row), row) == written(rows, row),
        distinct_dates(written(rows, row)),
        rows_dated(written(written(rows, row), row), row.date) == 1,
{
    let once = written(rows, row);
    lemma_dated_once(once, row.date);
}

/// Writing a new day to the log and reading the log again gives the
/// series that the same day's rollup left in memory, column for column.
/// The series is the one the log held, and the day is new to the log.
pub proof fn law_reload_after_write(days: Seq<DayRowView>, row: DayRowView, column: Column)
    requires
        distinct_dates(days),
        !has_date(days, row.date),
    ensures
        written(days, row) == rolled(days, row),
        column_of(written(days, row), column) == column_of(rolled(days, row), column),
        column_of(written(days, row), column).len() == days.len() + 1,
{
}

} // verus!
