use launchdarkly_server_sdk::data_source_builders::BuildError;
use launchdarkly_server_sdk::migration::{Operation, Origin, OriginReport, Stage, StagePlan};
use launchdarkly_server_sdk::migrator::{
    ExecutionOrder, MigrationSettings, MigratorBuilder, Outcome, ReadRun, ReadStep, WriteRun,
    WriteStep,
};

fn text(s: &str) -> String {
    s.to_string()
}

fn settings(order: ExecutionOrder, compare: bool) -> MigrationSettings {
    MigrationSettings {
        read_execution_order: order,
        track_latency: true,
        track_errors: true,
        track_consistency: compare,
    }
}

fn ok(payload: &str, latency_ms: u64) -> Outcome<String> {
    Outcome { result: Ok(text(payload)), latency_ms }
}

fn failed(message: &str, latency_ms: u64) -> Outcome<String> {
    Outcome { result: Err(text(message)), latency_ms }
}

/// Runs a read to its end against two origins that answer as given, with a
/// comparator that holds two payloads equal when they are the same text.
/// Returns the calls that were made, in their order.
fn drive_read(
    run: &mut ReadRun<String>,
    old: Result<&str, &str>,
    new: Result<&str, &str>,
) -> Vec<Origin> {
    let mut calls = Vec::new();
    let answer = |origin: Origin| -> Outcome<String> {
        let source = match origin {
            Origin::Old => old,
            Origin::New => new,
        };
        match source {
            Ok(payload) => ok(payload, 5),
            Err(message) => failed(message, 6),
        }
    };
    loop {
        match run.next() {
            ReadStep::Call(origin) => {
                calls.push(origin);
                run.record(origin, answer(origin));
            }
            ReadStep::CallBoth => {
                calls.push(Origin::Old);
                calls.push(Origin::New);
                run.record(Origin::Old, answer(Origin::Old));
                run.record(Origin::New, answer(Origin::New));
            }
            ReadStep::Compare => {
                let same = match (&run.old, &run.new) {
                    (Some(a), Some(b)) => a.result == b.result,
                    _ => panic!("nothing to compare"),
                };
                run.record_consistency(same);
            }
            ReadStep::Done => break,
        }
    }
    calls
}

fn drive_write(
    run: &mut WriteRun<String>,
    old: Result<&str, &str>,
    new: Result<&str, &str>,
) -> Vec<Origin> {
    let mut calls = Vec::new();
    loop {
        match run.next() {
            WriteStep::Call(origin) => {
                calls.push(origin);
                let source = match origin {
                    Origin::Old => old,
                    Origin::New => new,
                };
                run.record(
                    origin,
                    match source {
                        Ok(payload) => ok(payload, 7),
                        Err(message) => failed(message, 8),
                    },
                );
            }
            WriteStep::Done => break,
        }
    }
    calls
}

#[test]
fn stages_plan_origins_and_authority() {
    assert_eq!(
        Stage::OldOnly.plan(),
        StagePlan { run_old: true, run_new: false, authoritative: Origin::Old }
    );
    assert_eq!(
        Stage::Shadow.plan(),
        StagePlan { run_old: true, run_new: true, authoritative: Origin::Old }
    );
    assert_eq!(
        Stage::Live.plan(),
        StagePlan { run_old: true, run_new: true, authoritative: Origin::New }
    );
    assert_eq!(
        Stage::NewOnly.plan(),
        StagePlan { run_old: false, run_new: true, authoritative: Origin::New }
    );
    assert!(Stage::Live.plan().runs(Origin::Old));
    assert!(!Stage::NewOnly.plan().runs(Origin::Old));
    assert_eq!(Origin::Old.other(), Origin::New);
    assert_eq!(Origin::New.other(), Origin::Old);
}

#[test]
fn stage_names_are_parsed_and_resolved() {
    assert_eq!(Stage::parse("off"), Some(Stage::OldOnly));
    assert_eq!(Stage::parse("shadow"), Some(Stage::Shadow));
    assert_eq!(Stage::parse("live"), Some(Stage::Live));
    assert_eq!(Stage::parse("complete"), Some(Stage::NewOnly));
    assert_eq!(Stage::parse("Live"), None);
    assert_eq!(Stage::parse(""), None);
    for stage in [Stage::OldOnly, Stage::Shadow, Stage::Live, Stage::NewOnly] {
        assert_eq!(Stage::parse(stage.name()), Some(stage));
    }
    assert_eq!(Stage::resolve(&Some(text("live")), Stage::OldOnly), Stage::Live);
    assert_eq!(Stage::resolve(&Some(text("nonsense")), Stage::Shadow), Stage::Shadow);
    assert_eq!(Stage::resolve(&None, Stage::NewOnly), Stage::NewOnly);
}

#[test]
fn comparator_on_equal_outputs_gives_consistent_true() {
    let mut run = ReadRun::begin(Stage::Shadow, settings(ExecutionOrder::Serial, true), true);
    let calls = drive_read(&mut run, Ok("A"), Ok("A"));
    assert_eq!(calls, vec![Origin::Old, Origin::New]);
    let (result, event) = run.finish(text("flag"), Stage::OldOnly).expect("a finished read");
    assert_eq!(result.consistent, Some(true));
    assert_eq!(result.result, Ok(text("A")));
    assert_eq!(result.origin, Origin::Old);
    assert_eq!(event.consistent, Some(true));
    assert_eq!(event.key, "flag");
    assert_eq!(event.operation, Operation::Read);
    assert_eq!(event.stage, Stage::Shadow);
    assert_eq!(event.default_stage, Stage::OldOnly);
    assert_eq!(event.old, OriginReport { invoked: true, latency_ms: Some(5), error: false });
    assert_eq!(event.new, OriginReport { invoked: true, latency_ms: Some(5), error: false });
}

#[test]
fn comparator_on_different_outputs_gives_consistent_false() {
    let mut run = ReadRun::begin(Stage::Live, settings(ExecutionOrder::Serial, true), true);
    drive_read(&mut run, Ok("A"), Ok("B"));
    let (result, event) = run.finish(text("flag"), Stage::OldOnly).expect("a finished read");
    assert_eq!(result.consistent, Some(false));
    assert_eq!(event.consistent, Some(false));
    // the new origin is authoritative when live
    assert_eq!(result.result, Ok(text("B")));
    assert_eq!(result.origin, Origin::New);
}

#[test]
fn origin_error_leaves_consistency_out() {
    let mut run = ReadRun::begin(Stage::Shadow, settings(ExecutionOrder::Serial, true), true);
    let calls = drive_read(&mut run, Ok("A"), Err("boom"));
    assert_eq!(calls, vec![Origin::Old, Origin::New]);
    // a verdict that nobody asked for is not taken
    run.record_consistency(false);
    let (result, event) = run.finish(text("flag"), Stage::OldOnly).expect("a finished read");
    assert_eq!(result.consistent, None);
    assert_eq!(event.consistent, None);
    // the failure of the shadow origin is telemetry only
    assert_eq!(result.result, Ok(text("A")));
    assert_eq!(event.new, OriginReport { invoked: true, latency_ms: Some(6), error: true });
    assert_eq!(event.old, OriginReport { invoked: true, latency_ms: Some(5), error: false });
}

#[test]
fn authoritative_read_error_is_the_result() {
    let mut run = ReadRun::begin(Stage::Shadow, settings(ExecutionOrder::Serial, true), true);
    drive_read(&mut run, Err("old is down"), Ok("B"));
    let (result, _) = run.finish(text("flag"), Stage::OldOnly).expect("a finished read");
    assert_eq!(result.result, Err(text("old is down")));
    assert_eq!(result.consistent, None);
}

#[test]
fn no_comparator_means_no_verdict() {
    let mut run = ReadRun::begin(Stage::Shadow, settings(ExecutionOrder::Serial, false), true);
    drive_read(&mut run, Ok("A"), Ok("A"));
    let (result, _) = run.finish(text("flag"), Stage::OldOnly).expect("a finished read");
    assert_eq!(result.consistent, None);
}

#[test]
fn read_orders() {
    let mut serial = ReadRun::begin(Stage::Live, settings(ExecutionOrder::Serial, false), false);
    assert_eq!(drive_read(&mut serial, Ok("A"), Ok("B")), vec![Origin::Old, Origin::New]);

    let mut new_first =
        ReadRun::begin(Stage::Shadow, settings(ExecutionOrder::Random, false), false);
    assert_eq!(drive_read(&mut new_first, Ok("A"), Ok("B")), vec![Origin::New, Origin::Old]);

    let mut old_first =
        ReadRun::begin(Stage::Shadow, settings(ExecutionOrder::Random, false), true);
    assert_eq!(drive_read(&mut old_first, Ok("A"), Ok("B")), vec![Origin::Old, Origin::New]);

    let parallel: ReadRun<String> =
        ReadRun::begin(Stage::Shadow, settings(ExecutionOrder::Parallel, false), true);
    assert_eq!(parallel.next(), ReadStep::CallBoth);
}

#[test]
fn single_origin_stages_read_one_origin() {
    let mut old_only =
        ReadRun::begin(Stage::OldOnly, settings(ExecutionOrder::Parallel, true), true);
    assert_eq!(drive_read(&mut old_only, Ok("A"), Ok("B")), vec![Origin::Old]);
    let (result, event) = old_only.finish(text("flag"), Stage::Live).expect("a finished read");
    assert_eq!(result.result, Ok(text("A")));
    assert_eq!(result.consistent, None);
    assert!(!event.new.invoked);

    let mut new_only =
        ReadRun::begin(Stage::NewOnly, settings(ExecutionOrder::Serial, true), true);
    assert_eq!(drive_read(&mut new_only, Ok("A"), Ok("B")), vec![Origin::New]);
    let (result, event) = new_only.finish(text("flag"), Stage::Live).expect("a finished read");
    assert_eq!(result.result, Ok(text("B")));
    assert!(!event.old.invoked);
}

#[test]
fn unfinished_read_cannot_be_finished() {
    let run: ReadRun<String> =
        ReadRun::begin(Stage::Shadow, settings(ExecutionOrder::Serial, false), true);
    assert!(run.finish(text("flag"), Stage::OldOnly).is_none());
}

#[test]
fn untracked_latency_and_errors_are_not_reported() {
    let quiet = MigrationSettings {
        read_execution_order: ExecutionOrder::Serial,
        track_latency: false,
        track_errors: false,
        track_consistency: false,
    };
    let mut run = ReadRun::begin(Stage::Shadow, quiet, true);
    drive_read(&mut run, Ok("A"), Err("boom"));
    let (_, event) = run.finish(text("flag"), Stage::OldOnly).expect("a finished read");
    assert_eq!(event.old, OriginReport { invoked: true, latency_ms: None, error: false });
    assert_eq!(event.new, OriginReport { invoked: true, latency_ms: None, error: false });
}

#[test]
fn failed_authoritative_write_keeps_the_new_origin_from_being_invoked() {
    let mut run = WriteRun::begin(Stage::Shadow, settings(ExecutionOrder::Serial, false));
    let calls = drive_write(&mut run, Err("old write failed"), Ok("written"));
    assert_eq!(calls, vec![Origin::Old]);
    let (result, event) = run.finish(text("flag"), Stage::OldOnly).expect("a finished write");
    assert_eq!(result.authoritative.origin, Origin::Old);
    assert_eq!(result.authoritative.result, Err(text("old write failed")));
    assert!(result.nonauthoritative.is_none());
    assert_eq!(event.operation, Operation::Write);
    assert_eq!(event.old, OriginReport { invoked: true, latency_ms: Some(8), error: true });
    assert_eq!(event.new, OriginReport { invoked: false, latency_ms: None, error: false });
    assert_eq!(event.consistent, None);
}

#[test]
fn successful_authoritative_write_is_followed_by_the_shadow_write() {
    let mut run = WriteRun::begin(Stage::Shadow, settings(ExecutionOrder::Serial, false));
    assert_eq!(drive_write(&mut run, Ok("old"), Err("new failed")), vec![Origin::Old, Origin::New]);
    let (result, event) = run.finish(text("flag"), Stage::OldOnly).expect("a finished write");
    assert_eq!(result.authoritative.result, Ok(text("old")));
    let shadow = result.nonauthoritative.expect("the shadow write");
    assert_eq!(shadow.origin, Origin::New);
    assert_eq!(shadow.result, Err(text("new failed")));
    assert!(event.new.error);
    assert!(!event.old.error);
}

#[test]
fn live_write_goes_to_the_new_origin_first() {
    let mut run = WriteRun::begin(Stage::Live, settings(ExecutionOrder::Serial, false));
    assert_eq!(drive_write(&mut run, Ok("old"), Ok("new")), vec![Origin::New, Origin::Old]);
    let (result, _) = run.finish(text("flag"), Stage::OldOnly).expect("a finished write");
    assert_eq!(result.authoritative.origin, Origin::New);
    assert_eq!(result.authoritative.result, Ok(text("new")));
    assert_eq!(result.nonauthoritative.expect("the shadow write").origin, Origin::Old);

    let mut failing = WriteRun::begin(Stage::Live, settings(ExecutionOrder::Serial, false));
    assert_eq!(drive_write(&mut failing, Ok("old"), Err("no")), vec![Origin::New]);
}

#[test]
fn single_origin_stages_write_one_origin() {
    let mut old_only = WriteRun::begin(Stage::OldOnly, settings(ExecutionOrder::Serial, false));
    assert_eq!(drive_write(&mut old_only, Ok("old"), Ok("new")), vec![Origin::Old]);
    let mut new_only = WriteRun::begin(Stage::NewOnly, settings(ExecutionOrder::Serial, false));
    assert_eq!(drive_write(&mut new_only, Ok("old"), Ok("new")), vec![Origin::New]);
    let (result, _) = new_only.finish(text("flag"), Stage::OldOnly).expect("a finished write");
    assert_eq!(result.authoritative.result, Ok(text("new")));
    assert!(result.nonauthoritative.is_none());
}

#[test]
fn write_out_of_turn_is_left() {
    let mut run = WriteRun::begin(Stage::Shadow, settings(ExecutionOrder::Serial, false));
    run.record(Origin::New, ok("too early", 1));
    assert!(run.new.is_none());
    assert_eq!(run.next(), WriteStep::Call(Origin::Old));
}

#[test]
fn builder_needs_read_and_write_functions() {
    let nothing: MigratorBuilder<u8, u8> = MigratorBuilder::new();
    match nothing.build() {
        Err(BuildError::InvalidConfig(message)) => {
            assert_eq!(message, "read configuration not provided")
        }
        _ => panic!("expected the build to fail"),
    }
    let read_only: MigratorBuilder<u8, u8> = MigratorBuilder::new().read(1, 2, true);
    match read_only.build() {
        Err(BuildError::InvalidConfig(message)) => {
            assert_eq!(message, "write configuration not provided")
        }
        _ => panic!("expected the build to fail"),
    }
    let write_only: MigratorBuilder<u8, u8> = MigratorBuilder::new().write(3, 4);
    assert!(write_only.build().is_err());
}

#[test]
fn builder_makes_the_migrator_as_configured() {
    let migrator = MigratorBuilder::new()
        .read_execution_order(ExecutionOrder::Random)
        .track_latency(false)
        .track_errors(true)
        .read("read old", "read new", true)
        .write(10u8, 20u8)
        .build()
        .ok()
        .expect("a migrator");
    assert_eq!(
        migrator.settings,
        MigrationSettings {
            read_execution_order: ExecutionOrder::Random,
            track_latency: false,
            track_errors: true,
            track_consistency: true,
        }
    );
    assert_eq!(*migrator.read_origin(Origin::Old), "read old");
    assert_eq!(*migrator.read_origin(Origin::New), "read new");
    assert_eq!(*migrator.write_origin(Origin::Old), 10);
    assert_eq!(*migrator.write_origin(Origin::New), 20);
    let run: ReadRun<String> = migrator.read(Stage::Shadow, false);
    assert_eq!(run.next(), ReadStep::Call(Origin::New));
    let run: WriteRun<String> = migrator.write(Stage::Live);
    assert_eq!(run.next(), WriteStep::Call(Origin::New));
}

#[test]
fn default_builder_settings() {
    let migrator =
        MigratorBuilder::new().read((), (), false).write((), ()).build().ok().expect("a migrator");
    assert_eq!(
        migrator.settings,
        MigrationSettings {
            read_execution_order: ExecutionOrder::Parallel,
            track_latency: true,
            track_errors: true,
            track_consistency: false,
        }
    );
}
