//! The poll loop's decisions: the order of the collectors in a fast
//! cycle, when the explorer counts as ready, when a day is rolled into
//! the series, and what the row of a day holds.

use vstd::prelude::*;
use vstd::string::*;
use crate::data::{Dashboard, Transactions};
use crate::display::{
    count_label, count_text, fee_label, fee_text, hundredths_label, hundredths_text,
};
use crate::requests::Outcome;
use crate::statistics::{
    copy_row, day_changed, rolled, written, DayRow, DayRowView, Statistics, StatisticsView,
    StatsLog,
};
use crate::text::{decimal, format_number};

verus! {

/// The collectors of a fast cycle, in the order in which they run: later
/// collectors read the height and the price that earlier ones wrote.
#[derive(Debug, Clone, Copy, PartialEq, Eq, Structural)]
pub enum Step {
    Status,
    Mempool,
    Peers,
    Market,
    DiskUsage,
    Mining,
    RecentBlocks,
    TxnStats,
}

/// Seconds between two fast cycles.
pub const POLL_SECONDS: u64 = 15;

/// What the slow cycle is to do in a fast cycle.
#[derive(Debug, Clone, Copy, PartialEq, Eq, Structural)]
pub enum SlowAction {
    /// The day has changed: walk the unspent outputs, roll the day into
    /// the series and write its row.
    Collect,
    /// The series came from storage with today's row in it: the
    /// statistics are ready as they are.
    Ready,
    /// Nothing to do.
    Idle,
}

/// For each collector, whether it has succeeded at least once.
#[derive(Debug, Clone, Copy, PartialEq, Eq, Structural)]
pub struct Progress {
    pub status: bool,
    pub mempool: bool,
    pub peers: bool,
    pub market: bool,
    pub disk_usage: bool,
    pub mining: bool,
    pub recent_blocks: bool,
    pub txn_stats: bool,
}

/// What the poll loop remembers from cycle to cycle.
#[derive(Debug, Clone, Copy, PartialEq, Eq, Structural)]
pub struct Scheduler {
    /// Which collectors have succeeded at least once.
    pub succeeded: Progress,
    /// Whether every collector has succeeded at least once.
    pub ready_data: bool,
    /// Whether the last slow cycle succeeded.
    pub ready_stats: bool,
    /// Whether the series is known to hold today's row.
    pub ready_db: bool,
}

/// Whether `step` has succeeded.
pub open spec fn has_succeeded(progress: Progress, step: Step) -> bool {
    match step {
        Step::Status => progress.status,
        Step::Mempool => progress.mempool,
        Step::Peers => progress.peers,
        Step::Market => progress.market,
        Step::DiskUsage => progress.disk_usage,
        Step::Mining => progress.mining,
        Step::RecentBlocks => progress.recent_blocks,
        Step::TxnStats => progress.txn_stats,
    }
}

/// Whether every collector has succeeded.
pub open spec fn all_succeeded(progress: Progress) -> bool {
    forall|step: Step| has_succeeded(progress, step)
}

/// `progress` with a success of `step` added.
pub open spec fn with_success(progress: Progress, step: Step) -> Progress {
    match step {
        Step::Status => Progress { status: true, ..progress },
        Step::Mempool => Progress { mempool: true, ..progress },
        Step::Peers => Progress { peers: true, ..progress },
        Step::Market => Progress { market: true, ..progress },
        Step::DiskUsage => Progress { disk_usage: true, ..progress },
        Step::Mining => Progress { mining: true, ..progress },
        Step::RecentBlocks => Progress { recent_blocks: true, ..progress },
        Step::TxnStats => Progress { txn_stats: true, ..progress },
    }
}

/// The scheduler after a collector ended with `outcome`: a success is
/// remembered, and the data are ready from the moment on at which every
/// collector has had one. Any other outcome changes nothing.
pub open spec fn recorded(before: Scheduler, step: Step, outcome: Outcome) -> Scheduler {
    if outcome == Outcome::Updated {
        Scheduler {
            succeeded: with_success(before.succeeded, step),
            ready_data: before.ready_data || all_succeeded(with_success(before.succeeded, step)),
            ..before
        }
    } else {
        before
    }
}

/// What the slow cycle does when a fast cycle sees the date `today`.
pub open spec fn slow_action(
    scheduler: Scheduler,
    days: Seq<DayRowView>,
    today: Seq<char>,
    has_database: bool,
) -> SlowAction {
    if day_changed(days, today) {
        SlowAction::Collect
    } else if !scheduler.ready_db && has_database {
        SlowAction::Ready
    } else {
        SlowAction::Idle
    }
}

impl Scheduler {
    /// A scheduler before the first cycle: nothing has succeeded.
    pub fn new() -> (scheduler: Scheduler)
        ensures
            scheduler == (Scheduler {
                succeeded: Progress {
                    status: false,
                    mempool: false,
                    peers: false,
                    market: false,
                    disk_usage: false,
                    mining: false,
                    recent_blocks: false,
                    txn_stats: false,
                },
                ready_data: false,
                ready_stats: false,
                ready_db: false,
            }),
    {
        Scheduler {
            succeeded: Progress {
                status: false,
                mempool: false,
                peers: false,
                market: false,
                disk_usage: false,
                mining: false,
                recent_blocks: false,
                txn_stats: false,
            },
            ready_data: false,
            ready_stats: false,
            ready_db: false,
        }
    }

    /// Whether every collector has succeeded at least once.
    pub fn complete(&self) -> (all: bool)
        ensures
            all == all_succeeded(self.succeeded),
    {
        let p = &self.succeeded;
        let all = p.status && p.mempool && p.peers && p.market && p.disk_usage && p.mining
            && p.recent_blocks && p.txn_stats;
        proof {
            if !all {
                assert(!has_succeeded(self.succeeded, Step::Status) || !has_succeeded(
                    self.succeeded,
                    Step::Mempool,
                ) || !has_succeeded(self.succeeded, Step::Peers) || !has_succeeded(
                    self.succeeded,
                    Step::Market,
                ) || !has_succeeded(self.succeeded, Step::DiskUsage) || !has_succeeded(
                    self.succeeded,
                    Step::Mining,
                ) || !has_succeeded(self.succeeded, Step::RecentBlocks) || !has_succeeded(
                    self.succeeded,
                    Step::TxnStats,
                ));
            }
        }
        all
    }

    /// Takes the outcome of one collector. Whatever it is, the cycle goes
    /// on with the next collector.
    pub fn record(&mut self, step: Step, outcome: Outcome)
        ensures
            *final(self) == recorded(*old(self), step, outcome),
    {
        if outcome == Outcome::Updated {
            match step {
                Step::Status => {
                    self.succeeded.status = true;
                },
                Step::Mempool => {
                    self.succeeded.mempool = true;
                },
                Step::Peers => {
                    self.succeeded.peers = true;
                },
                Step::Market => {
                    self.succeeded.market = true;
                },
                Step::DiskUsage => {
                    self.succeeded.disk_usage = true;
                },
                Step::Mining => {
                    self.succeeded.mining = true;
                },
                Step::RecentBlocks => {
                    self.succeeded.recent_blocks = true;
                },
                Step::TxnStats => {
                    self.succeeded.txn_stats = true;
                },
            }
            if !self.ready_data {
                self.ready_data = self.complete();
            }
        }
    }

    /// Decides what the slow cycle does in a fast cycle that sees the
    /// date `today`: it collects where the day differs from the last of
    /// the series, and otherwise marks the statistics ready once, where a
    /// database holds the series.
    pub fn slow_cycle(&mut self, statistics: &Statistics, today: &str, has_database: bool) -> (action:
        SlowAction)
        ensures
            action == slow_action(*old(self), statistics@.days, today@, has_database),
            *final(self) == if action == SlowAction::Ready {
                Scheduler { ready_db: true, ..*old(self) }
            } else {
                *old(self)
            },
    {
        if statistics.day_changed(today) {
            SlowAction::Collect
        } else if !self.ready_db && has_database {
            self.ready_db = true;
            SlowAction::Ready
        } else {
            SlowAction::Idle
        }
    }

    /// Takes the end of a slow cycle that collected: a success makes the
    /// statistics ready, a failure makes them not ready.
    pub fn slow_done(&mut self, succeeded: bool)
        ensures
            *final(self) == if succeeded {
                Scheduler { ready_stats: true, ready_db: true, ..*old(self) }
            } else {
                Scheduler { ready_stats: false, ..*old(self) }
            },
    {
        if succeeded {
            self.ready_stats = true;
            self.ready_db = true;
        } else {
            self.ready_stats = false;
        }
    }
}

/// Closes a fast cycle: takes the outcomes of its eight collectors in the
/// order of the cycle and tells whether the data are ready. No outcome
/// keeps the outcomes after it from being taken.
pub fn data(scheduler: &mut Scheduler, outcomes: &[Outcome; 8]) -> (ready: bool)
    ensures
        *final(scheduler) == recorded(
            recorded(
                recorded(
                    recorded(
                        recorded(
                            recorded(
                                recorded(
                                    recorded(*old(scheduler), Step::Status, outcomes[0]),
                                    Step::Mempool,
                                    outcomes[1],
                                ),
                                Step::Peers,
                                outcomes[2],
                            ),
                            Step::Market,
                            outcomes[3],
                        ),
                        Step::DiskUsage,
                        outcomes[4],
                    ),
                    Step::Mining,
                    outcomes[5],
                ),
                Step::RecentBlocks,
                outcomes[6],
            ),
            Step::TxnStats,
            outcomes[7],
        ),
        ready == final(scheduler).ready_data,
{
    scheduler.record(Step::Status, outcomes[0]);
    scheduler.record(Step::Mempool, outcomes[1]);
    scheduler.record(Step::Peers, outcomes[2]);
    scheduler.record(Step::Market, outcomes[3]);
    scheduler.record(Step::DiskUsage, outcomes[4]);
    scheduler.record(Step::Mining, outcomes[5]);
    scheduler.record(Step::RecentBlocks, outcomes[6]);
    scheduler.record(Step::TxnStats, outcomes[7]);
    scheduler.ready_data
}

/// Readiness never goes back, and it comes with the cycle in which the
/// last collector has its first success.
pub proof fn law_ready_is_kept(before: Scheduler, step: Step, outcome: Outcome)
    ensures
        before.ready_data ==> recorded(before, step, outcome).ready_data,
        forall|other: Step|
            has_succeeded(before.succeeded, other) ==> has_succeeded(
                recorded(before, step, outcome).succeeded,
                other,
            ),
        outcome == Outcome::Updated ==> has_succeeded(
            recorded(before, step, outcome).succeeded,
            step,
        ),
        outcome != Outcome::Updated ==> recorded(before, step, outcome) == before,
{
}

/// The row of the day `today` as the state shows it: the graph rate in
/// thousands, the transactions and the fees of the last day, the unspent
/// outputs, and the kernels, which are half the size of the kernel MMR.
/// What is not known yet is left empty, the kernels zero.
pub open spec fn day_row(
    dashboard: &Dashboard,
    transactions: Transactions,
    today: Seq<char>,
) -> DayRowView {
    DayRowView {
        date: today,
        hashrate: hundredths_text(dashboard.hashrate_kgs),
        txns: count_text(transactions.period_24h),
        fees: fee_text(transactions.fees_24h),
        utxos: count_text(dashboard.utxo_count),
        kernels: match dashboard.kernel_mmr_size {
            Some(size) => decimal((size / 2) as nat),
            None => decimal(0),
        },
    }
}

/// Makes the row of the day `today` from the state.
pub fn make_day_row(dashboard: &Dashboard, transactions: &Transactions, today: &str) -> (row:
    DayRow)
    ensures
        row@ == day_row(dashboard, *transactions, today@),
{
    DayRow {
        date: String::from_str(today),
        hashrate: hundredths_label(dashboard.hashrate_kgs),
        txns: count_label(transactions.period_24h),
        fees: fee_label(transactions.fees_24h),
        utxos: count_label(dashboard.utxo_count),
        kernels: match dashboard.kernel_mmr_size {
            Some(size) => format_number((size / 2) as u128),
            None => format_number(0),
        },
    }
}

/// The slow cycle's rollup: where `today` is another day than the last
/// of the series, appends the day's row to the series and writes it to
/// the log unless the log has the day already. A second rollup on the
/// same date appends nothing. Tells whether a row was appended.
pub fn stats(
    dashboard: &Dashboard,
    transactions: &Transactions,
    statistics: &mut Statistics,
    log: &mut StatsLog,
    today: &str,
) -> (appended: bool)
    ensures
        appended == day_changed(old(statistics)@.days, today@),
        final(statistics)@ == (StatisticsView {
            days: rolled(old(statistics)@.days, day_row(dashboard, *transactions, today@)),
            ..old(statistics)@
        }),
        final(log)@ == if appended {
            written(old(log)@, day_row(dashboard, *transactions, today@))
        } else {
            old(log)@
        },
{
    if statistics.day_changed(today) {
        let row = make_day_row(dashboard, transactions, today);
        let copy = copy_row(&row);
        let _ = statistics.roll(row);
        let _ = log.insert_or_ignore(copy);
        true
    } else {
        false
    }
}

} // verus!
