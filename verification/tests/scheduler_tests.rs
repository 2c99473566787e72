use mixer_control::command::{Query, TransportError};
use mixer_control::model::{Sink, Snapshot, Volume};
use mixer_control::scheduler::{
    Phase, Portion, RefreshStatus, Scheduler, Step, DEFAULT_INTERVAL_SECS,
};

const SINKS_ONE: &[u8] = br#"{"sinks":[{"index":1,"name":"main","description":"Main"}]}"#;
const SINKS_TWO: &[u8] = br#"{"sinks":[
    {"index":1,"name":"main","description":"Main"},
    {"index":2,"name":"hdmi","description":"HDMI"}
]}"#;
const INPUTS_ONE: &[u8] = br#"{"sink_inputs":[{
    "index":10,"sink":1,
    "properties":{"application.name":"player","media.name":"song"},
    "volume":{"values":[{"percent":80},{"percent":90}]},
    "mute":false
}]}"#;

fn ok(raw: &[u8]) -> Result<Vec<u8>, TransportError> {
    Ok(raw.to_vec())
}

fn fresh() -> RefreshStatus {
    RefreshStatus {
        default_sink: Portion::Fresh,
        sinks: Portion::Fresh,
        sink_inputs: Portion::Fresh,
    }
}

fn main_sink() -> Sink {
    Sink { id: 1, name: "main".to_string(), description: "Main".to_string() }
}

fn refreshed() -> Scheduler {
    let mut scheduler = Scheduler::new();
    assert_eq!(scheduler.request_refresh(), Some(Query::DefaultSink));
    assert_eq!(scheduler.on_query_result(ok(b"main\n")), Step::Next(Query::Sinks));
    assert_eq!(scheduler.on_query_result(ok(SINKS_ONE)), Step::Next(Query::SinkInputs));
    let step = scheduler.on_query_result(ok(INPUTS_ONE));
    assert_eq!(step, Step::Committed { previous: Snapshot::empty(), status: fresh() });
    scheduler
}

#[test]
fn new_scheduler_is_idle_and_empty() {
    let scheduler = Scheduler::new();
    assert_eq!(scheduler.phase(), Phase::Idle);
    assert_eq!(*scheduler.current(), Snapshot::empty());
    assert_eq!(scheduler.interval_secs(), 2);
    assert_eq!(DEFAULT_INTERVAL_SECS, 2);
}

#[test]
fn interval_can_be_chosen() {
    let mut scheduler = Scheduler::with_interval(5);
    assert_eq!(scheduler.interval_secs(), 5);
    assert_eq!(scheduler.phase(), Phase::Idle);
    scheduler.request_refresh();
    scheduler.set_interval_secs(30);
    assert_eq!(scheduler.interval_secs(), 30);
    assert_eq!(scheduler.phase(), Phase::AwaitingDefaultSink);
    assert_eq!(*scheduler.current(), Snapshot::empty());
}

#[test]
fn a_cycle_asks_three_queries_in_order_and_commits() {
    let scheduler = refreshed();
    assert_eq!(scheduler.phase(), Phase::Idle);
    let now = scheduler.current();
    assert_eq!(now.default_sink_name, Some("main".to_string()));
    assert_eq!(now.sinks, vec![main_sink()]);
    assert_eq!(now.sink_inputs.len(), 1);
    assert_eq!(now.sink_inputs[0].id, 10);
    assert_eq!(now.sink_inputs[0].app_name, "player");
    assert_eq!(now.sink_inputs[0].volume, Volume { total: 170, channels: 2, other: Vec::new() });
}

#[test]
fn phases_follow_the_queries() {
    let mut scheduler = Scheduler::new();
    scheduler.request_refresh();
    assert_eq!(scheduler.phase(), Phase::AwaitingDefaultSink);
    scheduler.on_query_result(ok(b"main"));
    assert_eq!(scheduler.phase(), Phase::AwaitingSinks);
    scheduler.on_query_result(ok(SINKS_ONE));
    assert_eq!(scheduler.phase(), Phase::AwaitingSinkInputs);
    scheduler.on_query_result(ok(INPUTS_ONE));
    assert_eq!(scheduler.phase(), Phase::Idle);
}

#[test]
fn requests_in_flight_are_coalesced() {
    let mut scheduler = Scheduler::new();
    assert_eq!(scheduler.request_refresh(), Some(Query::DefaultSink));
    assert_eq!(scheduler.request_refresh(), None);
    assert_eq!(scheduler.request_refresh(), None);
    assert_eq!(scheduler.phase(), Phase::AwaitingDefaultSink);
    assert_eq!(scheduler.on_query_result(ok(b"main")), Step::Next(Query::Sinks));
    assert_eq!(scheduler.request_refresh(), None);
    assert_eq!(scheduler.on_timer(), None);
    assert_eq!(scheduler.phase(), Phase::AwaitingSinks);
    assert_eq!(scheduler.on_query_result(ok(SINKS_ONE)), Step::Next(Query::SinkInputs));
    assert_eq!(scheduler.request_refresh(), None);
    let step = scheduler.on_query_result(ok(INPUTS_ONE));
    assert_eq!(step, Step::Committed { previous: Snapshot::empty(), status: fresh() });
    assert_eq!(scheduler.phase(), Phase::Idle);
    assert_eq!(scheduler.on_query_result(ok(b"late")), Step::Ignored);
    assert_eq!(scheduler.request_refresh(), Some(Query::DefaultSink));
}

#[test]
fn two_requests_start_one_cycle() {
    let mut scheduler = Scheduler::new();
    let started: Vec<Option<Query>> =
        vec![scheduler.request_refresh(), scheduler.request_refresh()];
    assert_eq!(started, vec![Some(Query::DefaultSink), None]);
}

#[test]
fn the_timer_triggers_as_a_request_does() {
    let mut scheduler = Scheduler::new();
    assert_eq!(scheduler.on_timer(), Some(Query::DefaultSink));
    assert_eq!(scheduler.on_timer(), None);
    assert_eq!(scheduler.request_refresh(), None);
    assert_eq!(scheduler.phase(), Phase::AwaitingDefaultSink);
}

#[test]
fn an_answer_without_a_cycle_is_ignored() {
    let mut scheduler = Scheduler::new();
    assert_eq!(scheduler.on_query_result(ok(SINKS_ONE)), Step::Ignored);
    assert_eq!(scheduler.on_query_result(Err(TransportError::Failed)), Step::Ignored);
    assert_eq!(scheduler.phase(), Phase::Idle);
    assert_eq!(*scheduler.current(), Snapshot::empty());
}

#[test]
fn observers_see_the_previous_snapshot_until_the_commit() {
    let mut scheduler = refreshed();
    let before = scheduler.current().clone();
    scheduler.request_refresh();
    assert_eq!(*scheduler.current(), before);
    scheduler.on_query_result(ok(b"hdmi"));
    assert_eq!(*scheduler.current(), before);
    scheduler.on_query_result(ok(SINKS_TWO));
    assert_eq!(*scheduler.current(), before);
    let step = scheduler.on_query_result(ok(br#"{"sink_inputs":[]}"#));
    assert_eq!(step, Step::Committed { previous: before, status: fresh() });
    let now = scheduler.current();
    assert_eq!(now.default_sink_name, Some("hdmi".to_string()));
    assert_eq!(now.sinks.len(), 2);
    assert!(now.sink_inputs.is_empty());
}

#[test]
fn failed_stream_query_keeps_the_previous_streams() {
    let mut scheduler = refreshed();
    let before = scheduler.current().clone();
    assert_eq!(scheduler.request_refresh(), Some(Query::DefaultSink));
    assert_eq!(scheduler.on_query_result(ok(b"main")), Step::Next(Query::Sinks));
    assert_eq!(scheduler.on_query_result(ok(SINKS_TWO)), Step::Next(Query::SinkInputs));
    let step = scheduler.on_query_result(Err(TransportError::Failed));
    assert_eq!(
        step,
        Step::Committed {
            previous: before.clone(),
            status: RefreshStatus {
                default_sink: Portion::Fresh,
                sinks: Portion::Fresh,
                sink_inputs: Portion::Stale(TransportError::Failed),
            },
        }
    );
    let now = scheduler.current();
    assert_eq!(now.sinks.len(), 2);
    assert_eq!(now.sinks[1].name, "hdmi");
    assert_eq!(now.sink_inputs, before.sink_inputs);
    assert_eq!(now.sink_inputs.len(), 1);
    assert_eq!(scheduler.phase(), Phase::Idle);
    assert_eq!(scheduler.request_refresh(), Some(Query::DefaultSink));
}

#[test]
fn failed_stream_query_without_previous_streams_leaves_none() {
    let mut scheduler = Scheduler::new();
    scheduler.request_refresh();
    scheduler.on_query_result(ok(b"main"));
    scheduler.on_query_result(ok(SINKS_ONE));
    let step = scheduler.on_query_result(Err(TransportError::Unavailable));
    assert_eq!(
        step,
        Step::Committed {
            previous: Snapshot::empty(),
            status: RefreshStatus {
                default_sink: Portion::Fresh,
                sinks: Portion::Fresh,
                sink_inputs: Portion::Stale(TransportError::Unavailable),
            },
        }
    );
    assert_eq!(scheduler.current().sinks, vec![main_sink()]);
    assert!(scheduler.current().sink_inputs.is_empty());
}

#[test]
fn failed_sinks_and_default_queries_keep_their_parts() {
    let mut scheduler = refreshed();
    let before = scheduler.current().clone();
    scheduler.request_refresh();
    assert_eq!(
        scheduler.on_query_result(Err(TransportError::Unavailable)),
        Step::Next(Query::Sinks)
    );
    assert_eq!(
        scheduler.on_query_result(Err(TransportError::Failed)),
        Step::Next(Query::SinkInputs)
    );
    let step = scheduler.on_query_result(ok(br#"{"sink_inputs":[]}"#));
    assert_eq!(
        step,
        Step::Committed {
            previous: before.clone(),
            status: RefreshStatus {
                default_sink: Portion::Stale(TransportError::Unavailable),
                sinks: Portion::Stale(TransportError::Failed),
                sink_inputs: Portion::Fresh,
            },
        }
    );
    let now = scheduler.current();
    assert_eq!(now.default_sink_name, before.default_sink_name);
    assert_eq!(now.sinks, before.sinks);
    assert!(now.sink_inputs.is_empty());
}

#[test]
fn the_scheduler_survives_failure_after_failure() {
    let mut scheduler = refreshed();
    let before = scheduler.current().clone();
    for _ in 0..50 {
        assert_eq!(scheduler.on_timer(), Some(Query::DefaultSink));
        assert_eq!(
            scheduler.on_query_result(Err(TransportError::Unavailable)),
            Step::Next(Query::Sinks)
        );
        assert_eq!(
            scheduler.on_query_result(Err(TransportError::Unavailable)),
            Step::Next(Query::SinkInputs)
        );
        let step = scheduler.on_query_result(Err(TransportError::Unavailable));
        let stale = Portion::Stale(TransportError::Unavailable);
        assert_eq!(
            step,
            Step::Committed {
                previous: before.clone(),
                status: RefreshStatus { default_sink: stale, sinks: stale, sink_inputs: stale },
            }
        );
        assert_eq!(*scheduler.current(), before);
        assert_eq!(scheduler.phase(), Phase::Idle);
    }
    scheduler.on_timer();
    scheduler.on_query_result(ok(b"hdmi"));
    scheduler.on_query_result(ok(SINKS_TWO));
    scheduler.on_query_result(ok(INPUTS_ONE));
    assert_eq!(scheduler.current().default_sink_name, Some("hdmi".to_string()));
    assert_eq!(scheduler.current().sinks.len(), 2);
}

#[test]
fn a_blank_default_sink_answer_is_no_default_sink() {
    let mut scheduler = refreshed();
    scheduler.request_refresh();
    scheduler.on_query_result(ok(b"\n"));
    scheduler.on_query_result(ok(SINKS_ONE));
    scheduler.on_query_result(ok(INPUTS_ONE));
    assert_eq!(scheduler.current().default_sink_name, None);
}

#[test]
fn defaulted_fields_are_reported_as_degraded() {
    let mut scheduler = Scheduler::new();
    scheduler.request_refresh();
    scheduler.on_query_result(ok(b"main"));
    scheduler.on_query_result(ok(br#"{"sinks":[{"index":1}]}"#));
    let step = scheduler.on_query_result(ok(b"no json"));
    assert_eq!(
        step,
        Step::Committed {
            previous: Snapshot::empty(),
            status: RefreshStatus {
                default_sink: Portion::Fresh,
                sinks: Portion::Degraded,
                sink_inputs: Portion::Degraded,
            },
        }
    );
    assert_eq!(
        scheduler.current().sinks,
        vec![Sink { id: 1, name: String::new(), description: String::new() }]
    );
    assert!(scheduler.current().sink_inputs.is_empty());
}
