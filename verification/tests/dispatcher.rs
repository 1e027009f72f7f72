use launchdarkly_server_sdk::events::context::Context;
use launchdarkly_server_sdk::events::dispatcher::EventDispatcher;
use launchdarkly_server_sdk::events::event::{
    Custom, EventBody, FeatureRequest, InputEvent, InputPayload, MigrationOp,
};
use launchdarkly_server_sdk::migration::{Operation, OriginReport, Stage};

fn text(s: &str) -> String {
    s.to_string()
}

fn context(key: &str) -> Context {
    Context::new(text("user"), text(key))
}

fn custom(key: &str, time: u64) -> InputEvent {
    InputEvent {
        creation_date: time,
        context: context("alice"),
        payload: InputPayload::Custom(Custom { key: text(key), data: None, metric_value: None }),
    }
}

fn feature(context_key: &str, time: u64, track: bool, debug_until: Option<u64>) -> InputEvent {
    InputEvent {
        creation_date: time,
        context: context(context_key),
        payload: InputPayload::FeatureRequest(FeatureRequest {
            key: text("flag"),
            value: text("true"),
            variation: Some(1),
            default: text("false"),
            is_default: false,
            version: Some(3),
            reason: None,
            track_events: track,
            debug_events_until_date: debug_until,
        }),
    }
}

fn identify(context_key: &str, time: u64, anonymous: bool) -> InputEvent {
    let mut context = context(context_key);
    context.anonymous = anonymous;
    InputEvent { creation_date: time, context, payload: InputPayload::Identify }
}

fn kinds(events: &[launchdarkly_server_sdk::events::event::QueuedEvent]) -> Vec<&'static str> {
    events
        .iter()
        .map(|event| match event.body {
            EventBody::Index => "index",
            EventBody::Identify => "identify",
            EventBody::Feature(_) => "feature",
            EventBody::Debug(_) => "debug",
            EventBody::Custom(_) => "custom",
            EventBody::MigrationOp(_) => "migration_op",
        })
        .collect()
}

#[test]
fn more_events_than_capacity_are_dropped_and_counted() {
    let mut dispatcher = EventDispatcher::new(5, 5, 100_000, false);
    for i in 0..8 {
        dispatcher.submit(custom("purchase", i));
    }
    assert_eq!(dispatcher.queued(), 5);
    assert_eq!(dispatcher.dropped(), 3);
    let pending = dispatcher.take_pending();
    assert_eq!(pending.events.len(), 5);
    assert!(pending.summary.is_none());
    // the events that came first are the ones kept
    let times: Vec<u64> = pending.events.iter().map(|e| e.creation_date).collect();
    assert_eq!(times, vec![0, 1, 2, 3, 4]);
    assert_eq!(dispatcher.queued(), 0);
    assert_eq!(dispatcher.dropped(), 3);
}

#[test]
fn capacity_of_zero_drops_everything() {
    let mut dispatcher = EventDispatcher::new(0, 5, 100_000, false);
    dispatcher.submit(custom("a", 1));
    dispatcher.submit(feature("alice", 2, false, None));
    assert_eq!(dispatcher.queued(), 0);
    // the custom event, the index event, and then the summary at the flush
    assert_eq!(dispatcher.dropped(), 2);
    let pending = dispatcher.take_pending();
    assert!(pending.events.is_empty());
    assert!(pending.summary.is_none());
    assert_eq!(dispatcher.dropped(), 3);
}

#[test]
fn untracked_evaluation_is_counted_and_indexed_only() {
    let mut dispatcher = EventDispatcher::new(10, 5, 100_000, false);
    dispatcher.submit(feature("alice", 10, false, None));
    dispatcher.submit(feature("alice", 20, false, None));
    let pending = dispatcher.take_pending();
    assert_eq!(kinds(&pending.events), vec!["index"]);
    assert_eq!(pending.events[0].context.key, "alice");
    let summary = pending.summary.expect("a summary");
    assert_eq!(summary.counters().len(), 1);
    assert_eq!(summary.counters()[0].count, 2);
    assert_eq!(summary.start_date(), Some(10));
    assert_eq!(summary.end_date(), Some(20));
}

#[test]
fn index_event_precedes_feature_event_of_the_same_context() {
    let mut dispatcher = EventDispatcher::new(10, 5, 100_000, false);
    dispatcher.submit(feature("alice", 10, true, Some(11)));
    dispatcher.submit(feature("bob", 12, true, Some(11)));
    let pending = dispatcher.take_pending();
    assert_eq!(kinds(&pending.events), vec!["index", "feature", "debug", "index", "feature"]);
    assert_eq!(pending.events[0].context.key, "alice");
    assert_eq!(pending.events[1].context.key, "alice");
    assert_eq!(pending.events[3].context.key, "bob");
    assert_eq!(pending.events[4].context.key, "bob");
    match &pending.events[1].body {
        EventBody::Feature(request) => {
            assert_eq!(request.key, "flag");
            assert_eq!(request.value, "true");
            assert_eq!(request.variation, Some(1));
            assert_eq!(request.version, Some(3));
        }
        _ => panic!("expected a feature event"),
    }
}

#[test]
fn same_context_within_interval_gets_one_index_event() {
    let mut dispatcher = EventDispatcher::new(10, 5, 100, false);
    dispatcher.submit(feature("alice", 1_000, false, None));
    dispatcher.submit(identify("alice", 1_050, false));
    dispatcher.submit(feature("alice", 1_149, false, None));
    let pending = dispatcher.take_pending();
    assert_eq!(kinds(&pending.events), vec!["index", "identify"]);
    // the interval has passed since the context was last seen
    dispatcher.submit(feature("alice", 1_249, false, None));
    let pending = dispatcher.take_pending();
    assert_eq!(kinds(&pending.events), vec!["index"]);
}

#[test]
fn anonymous_contexts_can_be_left_out() {
    let mut dispatcher = EventDispatcher::new(10, 5, 100, true);
    dispatcher.submit(identify("ghost", 1, true));
    dispatcher.submit(feature("alice", 2, false, None));
    let mut event = feature("ghost", 3, true, None);
    event.context.anonymous = true;
    dispatcher.submit(event);
    let pending = dispatcher.take_pending();
    assert_eq!(kinds(&pending.events), vec!["index", "feature"]);
    assert_eq!(pending.events[0].context.key, "alice");
    assert_eq!(pending.events[1].context.key, "ghost");
    assert_eq!(pending.summary.expect("a summary").counters()[0].count, 2);
}

#[test]
fn migration_event_is_queued_as_it_is() {
    let mut dispatcher = EventDispatcher::new(10, 5, 100, false);
    let report = OriginReport { invoked: true, latency_ms: Some(4), error: false };
    dispatcher.submit(InputEvent {
        creation_date: 9,
        context: context("alice"),
        payload: InputPayload::Migration(MigrationOp {
            key: text("migration-flag"),
            operation: Operation::Write,
            default_stage: Stage::OldOnly,
            stage: Stage::Shadow,
            old: report,
            new: OriginReport { invoked: false, latency_ms: None, error: false },
            consistent: None,
        }),
    });
    let pending = dispatcher.take_pending();
    assert_eq!(kinds(&pending.events), vec!["migration_op"]);
    match &pending.events[0].body {
        EventBody::MigrationOp(op) => {
            assert_eq!(op.key, "migration-flag");
            assert_eq!(op.operation, Operation::Write);
            assert_eq!(op.stage, Stage::Shadow);
            assert_eq!(op.old, report);
            assert!(!op.new.invoked);
        }
        _ => panic!("expected a migration event"),
    }
    assert!(pending.summary.is_none());
}

#[test]
fn summary_that_finds_no_room_is_dropped_and_counted() {
    let mut dispatcher = EventDispatcher::new(2, 5, 100, false);
    dispatcher.submit(feature("alice", 1, true, None));
    assert_eq!(dispatcher.queued(), 2);
    assert_eq!(dispatcher.dropped(), 0);
    let pending = dispatcher.take_pending();
    assert_eq!(pending.events.len(), 2);
    assert!(pending.summary.is_none());
    assert_eq!(dispatcher.dropped(), 1);
}

#[test]
fn purge_lets_a_context_be_indexed_again() {
    let mut dispatcher = EventDispatcher::new(10, 5, 100, false);
    dispatcher.submit(identify("alice", 1_000, false));
    dispatcher.purge_context_keys(1_100);
    dispatcher.submit(identify("alice", 1_100, false));
    let pending = dispatcher.take_pending();
    assert_eq!(kinds(&pending.events), vec!["index", "identify", "index", "identify"]);
}
