//! The orchestrator: the state of a run and what happens next.
//!
//! The caller owns the traversal and the sink. It tells the orchestrator what
//! happened (an entry came, a record was written, the traversal ended) and
//! does what the orchestrator answers.

use crate::config::AppConfig;
use crate::content::planned;
use crate::content::FileStart;
use crate::filter::accepts;
use crate::filter::should_process;
use crate::paths::path_shown;
use crate::record::displayed;
use crate::record::header_bytes;
use std::path::Path;
use vstd::prelude::*;

verus! {

/// Where a run stands.
#[derive(Copy, Clone, PartialEq, Eq, Debug, Structural)]
pub enum RunState {
    /// Entries are still taken.
    Running,
    /// The traversal ended and the sink was flushed.
    Completed,
    /// The consumer of the sink went away; the run stopped early.
    Aborted,
    /// The sink could not be flushed.
    Failed,
}

/// How a write to the sink ended.
#[derive(Copy, Clone, PartialEq, Eq, Debug, Structural)]
pub enum WriteOutcome {
    /// Everything was written.
    Written,
    /// The consumer of the sink has stopped accepting bytes.
    DownstreamClosed,
    /// The write failed for another reason.
    Failed,
}

/// What the caller reports.
pub enum Event<'a> {
    /// The traversal yielded an entry.
    Entry { path: &'a Path, depth: usize, is_dir: bool },
    /// The traversal could not resolve an entry.
    EntryFailed,
    /// The record that was asked for has been dealt with.
    Record(WriteOutcome),
    /// The traversal has no more entries.
    Exhausted,
    /// The flush that was asked for has been dealt with.
    Flushed(WriteOutcome),
}

/// What the caller does next.
#[derive(Copy, Clone, PartialEq, Eq, Debug, Structural)]
pub enum Action {
    /// Take the next entry. With `warn`, first print a diagnostic about what
    /// was just reported.
    Advance { warn: bool },
    /// Write the record of the entry just reported, then report the outcome.
    Emit,
    /// Flush the sink, then report the outcome.
    Flush,
    /// End the run with success. With `report`, first print the summary.
    Finish { report: bool },
    /// End the run with the failure of the flush.
    Fail,
}

/// The state of a run: where it stands and how many files it has processed.
#[derive(Copy, Clone, PartialEq, Eq, Debug, Structural)]
pub struct Orchestrator {
    /// Where the run stands.
    pub state: RunState,
    /// Number of files whose record was attempted and not cut short by the
    /// consumer going away.
    pub files_processed: u64,
}

/// Whether an entry gets a record: it is not the root, not a directory, and
/// the filter keeps it.
pub open spec fn emits(config: &AppConfig, path: &Path, depth: usize, is_dir: bool) -> bool {
    depth != 0 && !is_dir && accepts(path, config, is_dir)
}

/// Whether the summary is printed at the end: not in quiet mode, and only
/// where the records go to standard output.
pub open spec fn reports(config: &AppConfig) -> bool {
    !config.quiet && config.output is None
}

impl Orchestrator {
    /// The state that follows `self` on `event`.
    pub open spec fn after(self, config: &AppConfig, event: Event) -> Orchestrator {
        match self.state {
            RunState::Running => match event {
                Event::Record(WriteOutcome::DownstreamClosed) => Orchestrator {
                    state: RunState::Aborted,
                    ..self
                },
                Event::Record(_) => Orchestrator {
                    files_processed: (self.files_processed + 1) as u64,
                    ..self
                },
                Event::Flushed(WriteOutcome::Failed) => Orchestrator {
                    state: RunState::Failed,
                    ..self
                },
                Event::Flushed(_) => Orchestrator { state: RunState::Completed, ..self },
                _ => self,
            },
            _ => self,
        }
    }

    /// The answer to `event` in state `self`.
    pub open spec fn action(self, config: &AppConfig, event: Event) -> Action {
        match self.state {
            RunState::Running => match event {
                Event::Entry { path, depth, is_dir } => if emits(config, path, depth, is_dir) {
                    Action::Emit
                } else {
                    Action::Advance { warn: false }
                },
                Event::EntryFailed => Action::Advance { warn: !config.quiet },
                Event::Record(WriteOutcome::Written) => Action::Advance { warn: false },
                Event::Record(WriteOutcome::DownstreamClosed) => Action::Finish { report: false },
                Event::Record(WriteOutcome::Failed) => Action::Advance { warn: !config.quiet },
                Event::Exhausted => Action::Flush,
                Event::Flushed(WriteOutcome::Failed) => Action::Fail,
                Event::Flushed(_) => Action::Finish { report: reports(config) },
            },
            RunState::Failed => Action::Fail,
            _ => Action::Finish { report: false },
        }
    }

    /// A run at its start.
    pub fn new() -> (run: Orchestrator)
        ensures
            run == (Orchestrator { state: RunState::Running, files_processed: 0 }),
    {
        Orchestrator { state: RunState::Running, files_processed: 0 }
    }

    /// Takes one event and answers with what the caller does next.
    ///
    /// While running: an entry gets a record if it is neither the root nor a
    /// directory and the filter keeps it. A record that was written, or that
    /// failed for a reason other than the consumer going away, counts as a
    /// processed file; the failure is worth a diagnostic unless the run is
    /// quiet. The consumer going away ends the run at once, with success and
    /// without a word. The end of the traversal asks for a flush, after which
    /// the run is over. Once the run is over, every event gets the same final
    /// answer.
    pub fn step(&mut self, config: &AppConfig, event: Event<'_>) -> (action: Action)
        requires
            old(self).state == RunState::Running && event is Record ==> old(self).files_processed
                < u64::MAX,
        ensures
            *final(self) == old(self).after(config, event),
            action == old(self).action(config, event),
    {
        match self.state {
            RunState::Running => match event {
                Event::Entry { path, depth, is_dir } => {
                    if depth != 0 && !is_dir && should_process(path, config, is_dir) {
                        Action::Emit
                    } else {
                        Action::Advance { warn: false }
                    }
                },
                Event::EntryFailed => Action::Advance { warn: !config.quiet },
                Event::Record(outcome) => match outcome {
                    WriteOutcome::Written => {
                        self.files_processed = self.files_processed + 1;
                        Action::Advance { warn: false }
                    },
                    WriteOutcome::DownstreamClosed => {
                        self.state = RunState::Aborted;
                        Action::Finish { report: false }
                    },
                    WriteOutcome::Failed => {
                        self.files_processed = self.files_processed + 1;
                        Action::Advance { warn: !config.quiet }
                    },
                },
                Event::Exhausted => Action::Flush,
                Event::Flushed(outcome) => match outcome {
                    WriteOutcome::Failed => {
                        self.state = RunState::Failed;
                        Action::Fail
                    },
                    _ => {
                        self.state = RunState::Completed;
                        Action::Finish { report: !config.quiet && config.output.is_none() }
                    },
                },
            },
            RunState::Failed => Action::Fail,
            _ => Action::Finish { report: false },
        }
    }
}

/// One step of a traversal together with what the file system holds for it.
pub struct Visit<'a> {
    /// The path that the traversal yielded.
    pub path: &'a Path,
    /// Its depth below the start directory; the start directory has depth 0.
    pub depth: usize,
    /// Whether it is a directory.
    pub is_dir: bool,
    /// Its canonical absolute form, where the file system gives one.
    pub resolved: Option<&'a Path>,
    /// How the file presents itself when it is opened and read once.
    pub start: FileStart<'a>,
    /// The bytes of the file after the lookahead.
    pub rest: Seq<u8>,
}

impl<'a> Visit<'a> {
    /// The event that reports this visit's entry.
    pub open spec fn entry(self) -> Event<'a> {
        Event::Entry { path: self.path, depth: self.depth, is_dir: self.is_dir }
    }

    /// Whether this visit gets a record.
    pub open spec fn emitted(self, config: &AppConfig) -> bool {
        emits(config, self.path, self.depth, self.is_dir)
    }

    /// The bytes of this visit's record: the header line and, where content
    /// is asked for, the content block.
    pub open spec fn record(self, config: &AppConfig) -> Seq<u8> {
        header_bytes(path_shown(displayed(self.path, self.resolved, config)), config.read_content)
            + if config.read_content {
            planned(self.start, config.max_bytes).output(self.rest)
        } else {
            Seq::empty()
        }
    }
}

/// The bytes that a run sends to the sink for a traversal, where every write
/// succeeds: the records of the visits that get one, in the order of the
/// traversal.
pub open spec fn run_output(config: &AppConfig, visits: Seq<Visit>) -> Seq<u8>
    decreases visits.len(),
{
    if visits.len() == 0 {
        Seq::empty()
    } else {
        run_output(config, visits.drop_last()) + if visits.last().emitted(config) {
            visits.last().record(config)
        } else {
            Seq::empty()
        }
    }
}

/// The number of visits that get a record.
pub open spec fn emitted_count(config: &AppConfig, visits: Seq<Visit>) -> nat
    decreases visits.len(),
{
    if visits.len() == 0 {
        0
    } else {
        emitted_count(config, visits.drop_last()) + if visits.last().emitted(config) {
            1nat
        } else {
            0nat
        }
    }
}

/// The state of a run after a traversal where every write succeeds: each
/// entry is reported, and each record that is asked for is reported written.
pub open spec fn after_visits(run: Orchestrator, config: &AppConfig, visits: Seq<Visit>) -> Orchestrator
    decreases visits.len(),
{
    if visits.len() == 0 {
        run
    } else {
        let before = after_visits(run, config, visits.drop_last());
        let event = visits.last().entry();
        if before.action(config, event) == Action::Emit {
            before.after(config, event).after(config, Event::Record(WriteOutcome::Written))
        } else {
            before.after(config, event)
        }
    }
}

/// Once a run is over it stays as it is: no event changes its state or its
/// count, and none is answered with a request to write.
pub proof fn finished_run_is_final(run: Orchestrator, config: &AppConfig, event: Event)
    requires
        run.state != RunState::Running,
    ensures
        run.after(config, event) == run,
        run.action(config, event) == run.action(config, Event::Exhausted),
        run.action(config, event) is Finish || run.action(config, event) is Fail,
{
}

/// No event lowers the count of processed files, and only a reported record
/// raises it.
pub proof fn count_never_falls(run: Orchestrator, config: &AppConfig, event: Event)
    requires
        run.files_processed < u64::MAX,
    ensures
        run.after(config, event).files_processed >= run.files_processed,
        run.after(config, event).files_processed != run.files_processed ==> event is Record,
{
}

/// The root of the traversal and every directory go without a record,
/// whatever the filter says.
pub proof fn root_and_directories_are_skipped(
    run: Orchestrator,
    config: &AppConfig,
    path: &Path,
    depth: usize,
    is_dir: bool,
)
    requires
        depth == 0 || is_dir,
    ensures
        run.action(config, Event::Entry { path, depth, is_dir }) != Action::Emit,
{
}

/// The consumer of the sink going away ends a run at once and in silence:
/// the run is aborted, the answer is to finish with success and without a
/// summary, no diagnostic is asked for, and the file does not count.
pub proof fn closed_consumer_ends_run(run: Orchestrator, config: &AppConfig)
    requires
        run.state == RunState::Running,
    ensures
        run.after(config, Event::Record(WriteOutcome::DownstreamClosed)).state == RunState::Aborted,
        run.after(config, Event::Record(WriteOutcome::DownstreamClosed)).files_processed
            == run.files_processed,
        run.action(config, Event::Record(WriteOutcome::DownstreamClosed)) == (Action::Finish {
            report: false,
        }),
        run.action(config, Event::Flushed(WriteOutcome::DownstreamClosed)) is Finish,
{
}

/// Over a traversal where every write succeeds, the run keeps running and
/// counts exactly the visits that get a record.
pub proof fn count_matches_records(config: &AppConfig, visits: Seq<Visit>)
    requires
        emitted_count(config, visits) <= u64::MAX,
    ensures
        after_visits(Orchestrator { state: RunState::Running, files_processed: 0 }, config, visits)
            == (Orchestrator {
            state: RunState::Running,
            files_processed: emitted_count(config, visits) as u64,
        }),
    decreases visits.len(),
{
    if visits.len() > 0 {
        count_matches_records(config, visits.drop_last());
    }
}

/// Records come in the order of the traversal: what a run sends for one
/// stretch of a traversal followed by another is what it sends for the first,
/// then what it sends for the second.
pub proof fn output_follows_traversal(config: &AppConfig, first: Seq<Visit>, second: Seq<Visit>)
    ensures
        run_output(config, first + second) == run_output(config, first) + run_output(
            config,
            second,
        ),
    decreases second.len(),
{
    if second.len() == 0 {
        assert(first + second =~= first);
        assert(run_output(config, first) + Seq::<u8>::empty() =~= run_output(config, first));
    } else {
        let whole = first + second;
        assert(whole.drop_last() =~= first + second.drop_last());
        assert(whole.last() == second.last());
        output_follows_traversal(config, first, second.drop_last());
        let tail = if second.last().emitted(config) {
            second.last().record(config)
        } else {
            Seq::<u8>::empty()
        };
        assert(run_output(config, whole) == run_output(config, first) + run_output(
            config,
            second.drop_last(),
        ) + tail);
        assert(run_output(config, first) + run_output(config, second.drop_last()) + tail
            =~= run_output(config, first) + (run_output(config, second.drop_last()) + tail));
    }
}

/// Two configurations built from the same settings decide alike on every
/// entry and render every record alike.
pub proof fn same_settings_same_record(cli: crate::config::Cli, a: &AppConfig, b: &AppConfig, visit: Visit)
    requires
        a.built_from(cli),
        b.built_from(cli),
    ensures
        visit.emitted(a) == visit.emitted(b),
        visit.record(a) == visit.record(b),
{
}

/// A run is repeatable: two runs with configurations built from the same
/// settings, over the same traversal of the same files, send the same bytes to
/// the sink.
pub proof fn same_settings_same_output(
    cli: crate::config::Cli,
    a: &AppConfig,
    b: &AppConfig,
    visits: Seq<Visit>,
)
    requires
        a.built_from(cli),
        b.built_from(cli),
    ensures
        run_output(a, visits) == run_output(b, visits),
        emitted_count(a, visits) == emitted_count(b, visits),
    decreases visits.len(),
{
    if visits.len() > 0 {
        same_settings_same_output(cli, a, b, visits.drop_last());
        same_settings_same_record(cli, a, b, visits.last());
    }
}

} // verus!
