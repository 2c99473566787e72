//! The refresh scheduler: when a refresh cycle starts, which query comes
//! next, and what is committed at its end.
//!
//! The scheduler performs no I/O. It hands out one query at a time; the
//! caller carries the query to the audio server and hands the answer back. A
//! cycle asks for the default sink, the sinks and the streams, in this order.
//! A query that fails does not end the cycle: its part of the snapshot keeps
//! the value it had. The snapshot is committed once, as a whole, when the
//! last answer is in.

use crate::command::{Query, TransportError};
use crate::json::json_text;
use crate::model::{
    copy_name, copy_sink_inputs, copy_sinks, name_view, sink_inputs_view, sinks_view, Sink,
    SinkInput, SinkInputView, SinkView, Snapshot, SnapshotView,
};
use crate::parser::{
    default_sink_name_of, parse_default_sink_name, parse_sink_inputs, parse_sinks,
    sink_inputs_degraded, sink_inputs_of, sinks_degraded, sinks_of, Parsed,
};
use crate::state::StateModel;
use vstd::prelude::*;

verus! {

/// The time between two refreshes by the timer, in seconds, unless another is
/// chosen.
pub const DEFAULT_INTERVAL_SECS: u64 = 2;

/// How far the scheduler is.
#[derive(Clone, Copy, Debug, PartialEq, Eq, Structural)]
pub enum Phase {
    /// No refresh is in flight.
    Idle,
    /// A refresh is in flight and waits for the name of the default sink.
    AwaitingDefaultSink,
    /// A refresh is in flight and waits for the sinks.
    AwaitingSinks,
    /// A refresh is in flight and waits for the streams.
    AwaitingSinkInputs,
}

/// How one part of a committed snapshot came about.
#[derive(Clone, Copy, Debug, PartialEq, Eq, Structural)]
pub enum Portion {
    /// Answered, and every field read as it stands.
    Fresh,
    /// Answered, with a default in the place of something absent or
    /// ill-shaped.
    Degraded,
    /// Not answered: the part holds the value it had before.
    Stale(TransportError),
}

/// The status of a refresh cycle, part by part.
#[derive(Clone, Copy, Debug, PartialEq, Eq, Structural)]
pub struct RefreshStatus {
    pub default_sink: Portion,
    pub sinks: Portion,
    pub sink_inputs: Portion,
}

/// What a query came to: its parsed answer, or the failure of the transport.
pub type Answer<T> = Result<Parsed<T>, TransportError>;

/// The status of the part that an answer fills.
pub open spec fn portion<T>(answer: Answer<T>) -> Portion {
    match answer {
        Ok(parsed) => if parsed.degraded {
            Portion::Degraded
        } else {
            Portion::Fresh
        },
        Err(e) => Portion::Stale(e),
    }
}

/// The value of the part that an answer fills: the parsed value, or `prior`
/// where the query failed.
pub open spec fn value_or<T>(answer: Answer<T>, prior: T) -> T {
    match answer {
        Ok(parsed) => parsed.value,
        Err(_) => prior,
    }
}

/// What the answer to the query for the default sink comes to.
pub open spec fn default_sink_answer(result: Result<Seq<u8>, TransportError>) -> Answer<
    Option<Seq<char>>,
> {
    match result {
        Ok(raw) => Ok(Parsed { value: default_sink_name_of(raw), degraded: false }),
        Err(e) => Err(e),
    }
}

/// What the answer to the query for the sinks comes to.
pub open spec fn sinks_answer(result: Result<Seq<u8>, TransportError>) -> Answer<Seq<SinkView>> {
    match result {
        Ok(raw) => Ok(
            Parsed { value: sinks_of(json_text(raw)), degraded: sinks_degraded(json_text(raw)) },
        ),
        Err(e) => Err(e),
    }
}

/// What the answer to the query for the streams comes to.
pub open spec fn sink_inputs_answer(result: Result<Seq<u8>, TransportError>) -> Answer<
    Seq<SinkInputView>,
> {
    match result {
        Ok(raw) => Ok(
            Parsed {
                value: sink_inputs_of(json_text(raw)),
                degraded: sink_inputs_degraded(json_text(raw)),
            },
        ),
        Err(e) => Err(e),
    }
}

/// The snapshot at the end of a cycle: each part from its answer, or from
/// the snapshot before where its query failed.
pub open spec fn assemble(
    prior: SnapshotView,
    default_sink: Answer<Option<Seq<char>>>,
    sinks: Answer<Seq<SinkView>>,
    sink_inputs: Answer<Seq<SinkInputView>>,
) -> SnapshotView {
    SnapshotView {
        default_sink_name: value_or(default_sink, prior.default_sink_name),
        sinks: value_or(sinks, prior.sinks),
        sink_inputs: value_or(sink_inputs, prior.sink_inputs),
    }
}

/// The status at the end of a cycle.
pub open spec fn status_of(
    default_sink: Answer<Option<Seq<char>>>,
    sinks: Answer<Seq<SinkView>>,
    sink_inputs: Answer<Seq<SinkInputView>>,
) -> RefreshStatus {
    RefreshStatus {
        default_sink: portion(default_sink),
        sinks: portion(sinks),
        sink_inputs: portion(sink_inputs),
    }
}

/// The cycle in flight, with the answers it has so far.
pub enum ProgressView {
    Idle,
    AwaitingDefaultSink,
    AwaitingSinks { default_sink: Answer<Option<Seq<char>>> },
    AwaitingSinkInputs { default_sink: Answer<Option<Seq<char>>>, sinks: Answer<Seq<SinkView>> },
}

impl ProgressView {
    /// How far the cycle is.
    pub open spec fn phase(self) -> Phase {
        match self {
            ProgressView::Idle => Phase::Idle,
            ProgressView::AwaitingDefaultSink => Phase::AwaitingDefaultSink,
            ProgressView::AwaitingSinks { .. } => Phase::AwaitingSinks,
            ProgressView::AwaitingSinkInputs { .. } => Phase::AwaitingSinkInputs,
        }
    }
}

/// What a [`Scheduler`] holds.
pub struct SchedulerView {
    /// The snapshot that observers see.
    pub current: SnapshotView,
    pub progress: ProgressView,
    pub interval_secs: u64,
}

impl SchedulerView {
    /// Whether a refresh is in flight.
    pub open spec fn refreshing(self) -> bool {
        self.progress.phase() != Phase::Idle
    }
}

/// What the caller does after it handed in an answer.
#[derive(Debug, PartialEq, Eq)]
pub enum Step {
    /// No refresh was in flight: the answer was dropped.
    Ignored,
    /// The cycle goes on: perform this query next.
    Next(Query),
    /// The cycle ended and its snapshot is committed: tell the observers.
    Committed { previous: Snapshot, status: RefreshStatus },
}

/// What a [`Step`] holds.
pub enum StepView {
    Ignored,
    Next(Query),
    Committed { previous: SnapshotView, status: RefreshStatus },
}

impl View for Step {
    type V = StepView;

    open spec fn view(&self) -> StepView {
        match *self {
            Step::Ignored => StepView::Ignored,
            Step::Next(query) => StepView::Next(query),
            Step::Committed { previous, status } => StepView::Committed {
                previous: previous@,
                status,
            },
        }
    }
}

/// A trigger, by the timer or on demand: starts a cycle where none is in
/// flight, and does nothing where one is.
pub open spec fn start(s: SchedulerView) -> (SchedulerView, Option<Query>) {
    match s.progress {
        ProgressView::Idle => (
            SchedulerView { progress: ProgressView::AwaitingDefaultSink, ..s },
            Some(Query::DefaultSink),
        ),
        _ => (s, None),
    }
}

/// The answer to the query that is out: the cycle moves to its next query,
/// or ends with the commit of the assembled snapshot.
pub open spec fn absorb(s: SchedulerView, result: Result<Seq<u8>, TransportError>) -> (
    SchedulerView,
    StepView,
) {
    match s.progress {
        ProgressView::Idle => (s, StepView::Ignored),
        ProgressView::AwaitingDefaultSink => (
            SchedulerView {
                progress: ProgressView::AwaitingSinks { default_sink: default_sink_answer(result) },
                ..s
            },
            StepView::Next(Query::Sinks),
        ),
        ProgressView::AwaitingSinks { default_sink } => (
            SchedulerView {
                progress: ProgressView::AwaitingSinkInputs {
                    default_sink,
                    sinks: sinks_answer(result),
                },
                ..s
            },
            StepView::Next(Query::SinkInputs),
        ),
        ProgressView::AwaitingSinkInputs { default_sink, sinks } => {
            let sink_inputs = sink_inputs_answer(result);
            (
                SchedulerView {
                    current: assemble(s.current, default_sink, sinks, sink_inputs),
                    progress: ProgressView::Idle,
                    ..s
                },
                StepView::Committed {
                    previous: s.current,
                    status: status_of(default_sink, sinks, sink_inputs),
                },
            )
        },
    }
}

/// What an answer of the transport holds.
pub open spec fn result_view(result: Result<Vec<u8>, TransportError>) -> Result<
    Seq<u8>,
    TransportError,
> {
    match result {
        Ok(raw) => Ok(raw@),
        Err(e) => Err(e),
    }
}

/// What the parsed answer for the default sink holds.
pub open spec fn name_answer_view(answer: Answer<Option<String>>) -> Answer<Option<Seq<char>>> {
    match answer {
        Ok(parsed) => Ok(Parsed { value: name_view(parsed.value), degraded: parsed.degraded }),
        Err(e) => Err(e),
    }
}

/// What the parsed answer for the sinks holds.
pub open spec fn sinks_answer_view(answer: Answer<Vec<Sink>>) -> Answer<Seq<SinkView>> {
    match answer {
        Ok(parsed) => Ok(Parsed { value: sinks_view(parsed.value@), degraded: parsed.degraded }),
        Err(e) => Err(e),
    }
}

/// What the parsed answer for the streams holds.
pub open spec fn sink_inputs_answer_view(answer: Answer<Vec<SinkInput>>) -> Answer<
    Seq<SinkInputView>,
> {
    match answer {
        Ok(parsed) => Ok(
            Parsed { value: sink_inputs_view(parsed.value@), degraded: parsed.degraded },
        ),
        Err(e) => Err(e),
    }
}

enum Progress {
    Idle,
    AwaitingDefaultSink,
    AwaitingSinks { default_sink: Answer<Option<String>> },
    AwaitingSinkInputs { default_sink: Answer<Option<String>>, sinks: Answer<Vec<Sink>> },
}

impl View for Progress {
    type V = ProgressView;

    closed spec fn view(&self) -> ProgressView {
        match *self {
            Progress::Idle => ProgressView::Idle,
            Progress::AwaitingDefaultSink => ProgressView::AwaitingDefaultSink,
            Progress::AwaitingSinks { default_sink } => ProgressView::AwaitingSinks {
                default_sink: name_answer_view(default_sink),
            },
            Progress::AwaitingSinkInputs { default_sink, sinks } => ProgressView::AwaitingSinkInputs {
                default_sink: name_answer_view(default_sink),
                sinks: sinks_answer_view(sinks),
            },
        }
    }
}

/// The status of the part that an answer fills.
fn portion_of<T>(answer: &Answer<T>) -> (r: Portion)
    ensures
        r == portion(*answer),
{
    match answer {
        Ok(parsed) => if parsed.degraded {
            Portion::Degraded
        } else {
            Portion::Fresh
        },
        Err(e) => Portion::Stale(*e),
    }
}

/// The one owner of the state model. It starts refresh cycles, takes the
/// answers of their queries and commits their snapshots.
pub struct Scheduler {
    model: StateModel,
    progress: Progress,
    interval_secs: u64,
}

impl View for Scheduler {
    type V = SchedulerView;

    closed spec fn view(&self) -> SchedulerView {
        SchedulerView {
            current: self.model.snapshot()@,
            progress: self.progress@,
            interval_secs: self.interval_secs,
        }
    }
}

impl Scheduler {
    /// A scheduler before the first refresh, with the default interval.
    pub fn new() -> (r: Scheduler)
        ensures
            r@ == (SchedulerView {
                current: SnapshotView::empty(),
                progress: ProgressView::Idle,
                interval_secs: DEFAULT_INTERVAL_SECS,
            }),
    {
        Scheduler {
            model: StateModel::new(),
            progress: Progress::Idle,
            interval_secs: DEFAULT_INTERVAL_SECS,
        }
    }

    /// A scheduler before the first refresh, with the interval given.
    pub fn with_interval(interval_secs: u64) -> (r: Scheduler)
        ensures
            r@ == (SchedulerView {
                current: SnapshotView::empty(),
                progress: ProgressView::Idle,
                interval_secs,
            }),
    {
        Scheduler { model: StateModel::new(), progress: Progress::Idle, interval_secs }
    }

    /// The time between two refreshes by the timer, in seconds.
    pub fn interval_secs(&self) -> (r: u64)
        ensures
            r == self@.interval_secs,
    {
        self.interval_secs
    }

    /// Chooses the time between two refreshes by the timer. Nothing else
    /// changes; a cycle in flight goes on.
    pub fn set_interval_secs(&mut self, interval_secs: u64)
        ensures
            final(self)@ == (SchedulerView { interval_secs, ..old(self)@ }),
    {
        self.interval_secs = interval_secs;
    }

    /// The snapshot committed last, or the empty one before the first commit.
    /// While a cycle is in flight this is still the snapshot from before it.
    pub fn current(&self) -> (r: &Snapshot)
        ensures
            r@ == self@.current,
    {
        self.model.current()
    }

    /// How far the scheduler is.
    pub fn phase(&self) -> (r: Phase)
        ensures
            r == self@.progress.phase(),
    {
        match &self.progress {
            Progress::Idle => Phase::Idle,
            Progress::AwaitingDefaultSink => Phase::AwaitingDefaultSink,
            Progress::AwaitingSinks { .. } => Phase::AwaitingSinks,
            Progress::AwaitingSinkInputs { .. } => Phase::AwaitingSinkInputs,
        }
    }

    /// Asks for a refresh. Where none is in flight a cycle starts, and the
    /// result is its first query. Where one is in flight nothing changes and
    /// nothing is to be done: the cycle in flight answers the request.
    pub fn request_refresh(&mut self) -> (r: Option<Query>)
        ensures
            (final(self)@, r) == start(old(self)@),
    {
        match &self.progress {
            Progress::Idle => {
                self.progress = Progress::AwaitingDefaultSink;
                Some(Query::DefaultSink)
            },
            _ => None,
        }
    }

    /// The timer fired. It triggers a refresh as a request does.
    pub fn on_timer(&mut self) -> (r: Option<Query>)
        ensures
            (final(self)@, r) == start(old(self)@),
    {
        self.request_refresh()
    }

    /// Takes the answer to the query that was handed out last. After the
    /// first two queries of a cycle the result is the next query, whether the
    /// answer is a failure or not. After the third, the snapshot is
    /// assembled and committed, the scheduler is idle again, and the result
    /// carries the snapshot from before and the status of the cycle.
    pub fn on_query_result(&mut self, result: Result<Vec<u8>, TransportError>) -> (r: Step)
        ensures
            (final(self)@, r@) == absorb(old(self)@, result_view(result)),
    {
        let mut progress = Progress::Idle;
        core::mem::swap(&mut self.progress, &mut progress);
        match progress {
            Progress::Idle => Step::Ignored,
            Progress::AwaitingDefaultSink => {
                let default_sink: Answer<Option<String>> = match result {
                    Ok(raw) => Ok(
                        Parsed { value: parse_default_sink_name(raw.as_slice()), degraded: false },
                    ),
                    Err(e) => Err(e),
                };
                self.progress = Progress::AwaitingSinks { default_sink };
                Step::Next(Query::Sinks)
            },
            Progress::AwaitingSinks { default_sink } => {
                let sinks: Answer<Vec<Sink>> = match result {
                    Ok(raw) => Ok(parse_sinks(raw.as_slice())),
                    Err(e) => Err(e),
                };
                self.progress = Progress::AwaitingSinkInputs { default_sink, sinks };
                Step::Next(Query::SinkInputs)
            },
            Progress::AwaitingSinkInputs { default_sink, sinks } => {
                let sink_inputs: Answer<Vec<SinkInput>> = match result {
                    Ok(raw) => Ok(parse_sink_inputs(raw.as_slice())),
                    Err(e) => Err(e),
                };
                let status = RefreshStatus {
                    default_sink: portion_of(&default_sink),
                    sinks: portion_of(&sinks),
                    sink_inputs: portion_of(&sink_inputs),
                };
                let prior = self.model.current();
                let new = Snapshot {
                    default_sink_name: match default_sink {
                        Ok(parsed) => parsed.value,
                        Err(_) => copy_name(&prior.default_sink_name),
                    },
                    sinks: match sinks {
                        Ok(parsed) => parsed.value,
                        Err(_) => copy_sinks(&prior.sinks),
                    },
                    sink_inputs: match sink_inputs {
                        Ok(parsed) => parsed.value,
                        Err(_) => copy_sink_inputs(&prior.sink_inputs),
                    },
                };
                let previous = self.model.commit(new);
                Step::Committed { previous, status }
            },
        }
    }
}

/// The state after a whole cycle that starts idle: the trigger, then the
/// three answers in the order of the queries.
pub open spec fn after_cycle(
    s: SchedulerView,
    default_sink: Result<Seq<u8>, TransportError>,
    sinks: Result<Seq<u8>, TransportError>,
    sink_inputs: Result<Seq<u8>, TransportError>,
) -> SchedulerView {
    absorb(absorb(absorb(start(s).0, default_sink).0, sinks).0, sink_inputs).0
}

/// Requests coalesce. While a refresh is in flight a trigger changes nothing
/// and starts nothing, however often it comes: the cycle in flight answers
/// it, and no further cycle is owed when that cycle ends. From idle, a
/// trigger starts one cycle, and a second trigger right after it joins that
/// cycle: two requests, one cycle.
pub proof fn lemma_requests_coalesce(s: SchedulerView)
    ensures
        s.refreshing() ==> start(s) == (s, None::<Query>),
        s.refreshing() ==> start(start(s).0) == (s, None::<Query>),
        !s.refreshing() ==> start(s).1 == Some(Query::DefaultSink) && start(s).0.refreshing(),
        !s.refreshing() ==> start(start(s).0) == (start(s).0, None::<Query>),
        start(s).0.current == s.current,
{
}

/// A commit is all or nothing. Until the last answer of a cycle is in, the
/// snapshot that observers see is the one from before the cycle, whole. The
/// step that commits replaces it by the assembled snapshot, whole, and no
/// other step changes it.
pub proof fn lemma_snapshot_changes_only_by_commit(
    s: SchedulerView,
    result: Result<Seq<u8>, TransportError>,
)
    ensures
        !(absorb(s, result).1 is Committed) ==> absorb(s, result).0.current == s.current,
        absorb(s, result).1 is Committed <==> s.progress is AwaitingSinkInputs,
        absorb(s, result).1 matches StepView::Committed { previous, status } ==> previous
            == s.current && !absorb(s, result).0.refreshing() && absorb(s, result).0.current
            == assemble(
            s.current,
            s.progress->AwaitingSinkInputs_default_sink,
            s.progress->sinks,
            sink_inputs_answer(result),
        ),
{
}

/// A whole cycle from idle ends idle with one commit, whatever the three
/// answers are. Each part of the committed snapshot is what its answer
/// parses to, or, where its query failed, what the snapshot before held. The
/// next trigger starts the next cycle: no failure halts the scheduler.
pub proof fn lemma_cycle_commits_and_goes_on(
    s: SchedulerView,
    default_sink: Result<Seq<u8>, TransportError>,
    sinks: Result<Seq<u8>, TransportError>,
    sink_inputs: Result<Seq<u8>, TransportError>,
)
    requires
        !s.refreshing(),
    ensures
        ({
            let end = after_cycle(s, default_sink, sinks, sink_inputs);
            &&& !end.refreshing()
            &&& end.interval_secs == s.interval_secs
            &&& end.current == assemble(
                s.current,
                default_sink_answer(default_sink),
                sinks_answer(sinks),
                sink_inputs_answer(sink_inputs),
            )
            &&& end.current.default_sink_name == match default_sink {
                Ok(raw) => default_sink_name_of(raw),
                Err(_) => s.current.default_sink_name,
            }
            &&& end.current.sinks == match sinks {
                Ok(raw) => sinks_of(json_text(raw)),
                Err(_) => s.current.sinks,
            }
            &&& end.current.sink_inputs == match sink_inputs {
                Ok(raw) => sink_inputs_of(json_text(raw)),
                Err(_) => s.current.sink_inputs,
            }
            &&& start(end).1 == Some(Query::DefaultSink)
        }),
{
}

/// The queries of a cycle come in a fixed order, and a failed answer is
/// followed by the next query just as a good one is.
pub proof fn lemma_queries_in_order(
    s: SchedulerView,
    default_sink: Result<Seq<u8>, TransportError>,
    sinks: Result<Seq<u8>, TransportError>,
    sink_inputs: Result<Seq<u8>, TransportError>,
)
    requires
        !s.refreshing(),
    ensures
        start(s).1 == Some(Query::DefaultSink),
        absorb(start(s).0, default_sink).1 == StepView::Next(Query::Sinks),
        absorb(absorb(start(s).0, default_sink).0, sinks).1 == StepView::Next(Query::SinkInputs),
        absorb(absorb(absorb(start(s).0, default_sink).0, sinks).0, sink_inputs).1 is Committed,
{
}

/// A cycle in which every query fails commits the snapshot from before,
/// unchanged, and reports each part as stale with the failure of its query.
pub proof fn lemma_failed_cycle_keeps_snapshot(
    s: SchedulerView,
    e1: TransportError,
    e2: TransportError,
    e3: TransportError,
)
    requires
        !s.refreshing(),
    ensures
        after_cycle(s, Err(e1), Err(e2), Err(e3)) == s,
        absorb(absorb(absorb(start(s).0, Err(e1)).0, Err(e2)).0, Err(e3)).1 == (
        StepView::Committed {
            previous: s.current,
            status: RefreshStatus {
                default_sink: Portion::Stale(e1),
                sinks: Portion::Stale(e2),
                sink_inputs: Portion::Stale(e3),
            },
        }),
{
}

} // verus!
