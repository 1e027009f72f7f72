//! Runs a read or a write against the old and the new system of a migration,
//! as the stage asks, and reports what happened.
//!
//! The calls into the two systems are made by the owner of a run: the run says
//! which call is next, takes what the call came to, and says when it is done.

use crate::data_source_builders::BuildError;
use crate::events::event::MigrationOp;
use crate::migration::{Operation, Origin, OriginReport, Stage};
use vstd::prelude::*;

verus! {

/// In which order a read runs against the two systems where it runs against
/// both.
#[derive(Clone, Copy, Debug, PartialEq, Eq, Structural)]
pub enum ExecutionOrder {
    /// The old system first, then the new one.
    Serial,
    /// One after the other, the first one chosen by chance for each read.
    Random,
    /// Both at the same time.
    Parallel,
}

/// What a migrator measures and how it reads.
#[derive(Clone, Copy, Debug, PartialEq, Eq, Structural)]
pub struct MigrationSettings {
    pub read_execution_order: ExecutionOrder,
    pub track_latency: bool,
    pub track_errors: bool,
    /// Whether the results of two reads are compared.
    pub track_consistency: bool,
}

/// What a call into one system came to.
pub struct Outcome<T> {
    pub result: Result<T, String>,
    /// How long the call took, in milliseconds.
    pub latency_ms: u64,
}

/// What is reported about a system that may have been called.
pub open spec fn report_of<T>(outcome: Option<Outcome<T>>, settings: MigrationSettings)
    -> OriginReport {
    match outcome {
        Some(outcome) => OriginReport {
            invoked: true,
            latency_ms: if settings.track_latency {
                Some(outcome.latency_ms)
            } else {
                None
            },
            error: settings.track_errors && outcome.result is Err,
        },
        None => OriginReport { invoked: false, latency_ms: None, error: false },
    }
}

/// What is reported about a system that may have been called.
fn make_report<T>(outcome: &Option<Outcome<T>>, settings: MigrationSettings) -> (report:
    OriginReport)
    ensures
        report == report_of(*outcome, settings),
{
    match outcome {
        Some(outcome) => OriginReport {
            invoked: true,
            latency_ms: if settings.track_latency {
                Some(outcome.latency_ms)
            } else {
                None
            },
            error: settings.track_errors && outcome.result.is_err(),
        },
        None => OriginReport { invoked: false, latency_ms: None, error: false },
    }
}

/// What comes next in a read.
#[derive(Clone, Copy, Debug, PartialEq, Eq, Structural)]
pub enum ReadStep {
    /// Call this system and record what the call came to.
    Call(Origin),
    /// Call both systems at the same time and record what both calls came to.
    CallBoth,
    /// Compare the two results and record whether they agree.
    Compare,
    /// Nothing: the read can be finished.
    Done,
}

/// One read in progress.
pub struct ReadRun<T> {
    pub stage: Stage,
    pub settings: MigrationSettings,
    /// The system that goes first where the order is left to chance.
    pub first: Origin,
    pub old: Option<Outcome<T>>,
    pub new: Option<Outcome<T>>,
    /// Whether the two results agree, once they were compared.
    pub consistent: Option<bool>,
}

/// What a read came to: the result of the authoritative system, and what is
/// known about both.
pub struct ReadResult<T> {
    pub result: Result<T, String>,
    /// The system that the result comes from.
    pub origin: Origin,
    pub old: OriginReport,
    pub new: OriginReport,
    /// Whether the two systems agreed. `None` where they were not compared:
    /// one of them was not called or failed, or no comparison was asked for.
    pub consistent: Option<bool>,
}

impl<T> ReadRun<T> {
    /// What the run holds for `origin`.
    pub open spec fn outcome(self, origin: Origin) -> Option<Outcome<T>> {
        match origin {
            Origin::Old => self.old,
            Origin::New => self.new,
        }
    }

    /// Whether `origin` is still to be called.
    pub open spec fn awaits(self, origin: Origin) -> bool {
        self.stage.spec_plan().spec_runs(origin) && self.outcome(origin) is None
    }

    /// Whether both systems were called and both calls succeeded.
    pub open spec fn both_succeeded(self) -> bool {
        &&& self.old matches Some(old)
        &&& old.result is Ok
        &&& self.new matches Some(new)
        &&& new.result is Ok
    }

    /// What comes next: the calls that the stage asks for, in the order that
    /// the settings ask for; then the comparison, where one is asked for and
    /// both calls succeeded; then nothing.
    pub open spec fn spec_next(self) -> ReadStep {
        if self.awaits(Origin::Old) && self.awaits(Origin::New) {
            match self.settings.read_execution_order {
                ExecutionOrder::Serial => ReadStep::Call(Origin::Old),
                ExecutionOrder::Random => ReadStep::Call(self.first),
                ExecutionOrder::Parallel => ReadStep::CallBoth,
            }
        } else if self.awaits(Origin::Old) {
            ReadStep::Call(Origin::Old)
        } else if self.awaits(Origin::New) {
            ReadStep::Call(Origin::New)
        } else if self.settings.track_consistency && self.both_succeeded() && self.consistent
            is None {
            ReadStep::Compare
        } else {
            ReadStep::Done
        }
    }

    /// The run after the call into `origin` came to `outcome`. What comes for
    /// a system that the stage does not ask for, or a second time, is left.
    pub open spec fn recorded(self, origin: Origin, outcome: Outcome<T>) -> ReadRun<T> {
        if self.awaits(origin) {
            match origin {
                Origin::Old => ReadRun { old: Some(outcome), ..self },
                Origin::New => ReadRun { new: Some(outcome), ..self },
            }
        } else {
            self
        }
    }

    /// The run after the comparison came to `consistent`. A verdict that the
    /// run did not ask for is left.
    pub open spec fn compared(self, consistent: bool) -> ReadRun<T> {
        if self.spec_next() == ReadStep::Compare {
            ReadRun { consistent: Some(consistent), ..self }
        } else {
            self
        }
    }

    /// The verdict that is reported: the one recorded, where a comparison was
    /// asked for and both calls succeeded.
    pub open spec fn verdict(self) -> Option<bool> {
        if self.settings.track_consistency && self.both_succeeded() {
            self.consistent
        } else {
            None
        }
    }

    /// What the finished read came to.
    pub open spec fn result(self) -> ReadResult<T> {
        let origin = self.stage.spec_plan().authoritative;
        ReadResult {
            result: self.outcome(origin)->Some_0.result,
            origin,
            old: report_of(self.old, self.settings),
            new: report_of(self.new, self.settings),
            consistent: self.verdict(),
        }
    }

    /// The event that reports the finished read.
    pub open spec fn event(self, key: Seq<char>, default_stage: Stage)
        -> crate::events::event::MigrationOpView {
        crate::events::event::MigrationOpView {
            key,
            operation: Operation::Read,
            default_stage,
            stage: self.stage,
            old: report_of(self.old, self.settings),
            new: report_of(self.new, self.settings),
            consistent: self.verdict(),
        }
    }

    /// A read at `stage` that has called nothing yet. Where the order is left
    /// to chance, the old system goes first if `old_first`.
    pub fn begin(stage: Stage, settings: MigrationSettings, old_first: bool) -> (run: Self)
        ensures
            run == (ReadRun::<T> {
                stage,
                settings,
                first: if old_first {
                    Origin::Old
                } else {
                    Origin::New
                },
                old: None,
                new: None,
                consistent: None,
            }),
    {
        ReadRun {
            stage,
            settings,
            first: if old_first {
                Origin::Old
            } else {
                Origin::New
            },
            old: None,
            new: None,
            consistent: None,
        }
    }

    /// Whether `origin` is still to be called.
    fn is_awaited(&self, origin: Origin) -> (awaited: bool)
        ensures
            awaited == self.awaits(origin),
    {
        self.stage.plan().runs(origin) && match origin {
            Origin::Old => self.old.is_none(),
            Origin::New => self.new.is_none(),
        }
    }

    /// Whether both systems were called and both calls succeeded.
    fn has_two_results(&self) -> (both: bool)
        ensures
            both == self.both_succeeded(),
    {
        match (&self.old, &self.new) {
            (Some(old), Some(new)) => old.result.is_ok() && new.result.is_ok(),
            _ => false,
        }
    }

    /// What comes next.
    pub fn next(&self) -> (step: ReadStep)
        ensures
            step == self.spec_next(),
    {
        let old = self.is_awaited(Origin::Old);
        let new = self.is_awaited(Origin::New);
        if old && new {
            match self.settings.read_execution_order {
                ExecutionOrder::Serial => ReadStep::Call(Origin::Old),
                ExecutionOrder::Random => ReadStep::Call(self.first),
                ExecutionOrder::Parallel => ReadStep::CallBoth,
            }
        } else if old {
            ReadStep::Call(Origin::Old)
        } else if new {
            ReadStep::Call(Origin::New)
        } else if self.settings.track_consistency && self.has_two_results()
            && self.consistent.is_none() {
            ReadStep::Compare
        } else {
            ReadStep::Done
        }
    }

    /// Records what the call into `origin` came to.
    pub fn record(&mut self, origin: Origin, outcome: Outcome<T>)
        ensures
            *final(self) == old(self).recorded(origin, outcome),
    {
        if self.is_awaited(origin) {
            match origin {
                Origin::Old => {
                    self.old = Some(outcome);
                },
                Origin::New => {
                    self.new = Some(outcome);
                },
            }
        }
    }

    /// Records whether the two results agree.
    pub fn record_consistency(&mut self, consistent: bool)
        ensures
            *final(self) == old(self).compared(consistent),
    {
        if let ReadStep::Compare = self.next() {
            self.consistent = Some(consistent);
        }
    }

    /// Finishes the read: the result for the caller and the event that
    /// reports the read under the flag `key`. `None` while a step is still to
    /// come.
    pub fn finish(self, key: String, default_stage: Stage) -> (finished: Option<
        (ReadResult<T>, MigrationOp),
    >)
        ensures
            match finished {
                Some((result, event)) => self.spec_next() == ReadStep::Done && result
                    == self.result() && event@ == self.event(key@, default_stage),
                None => self.spec_next() != ReadStep::Done,
            },
    {
        if let ReadStep::Done = self.next() {
            let both = self.has_two_results();
            let ReadRun { stage, settings, first: _, old, new, consistent } = self;
            let old_report = make_report(&old, settings);
            let new_report = make_report(&new, settings);
            let verdict = if settings.track_consistency && both {
                consistent
            } else {
                None
            };
            let origin = stage.plan().authoritative;
            let outcome = match origin {
                Origin::Old => old,
                Origin::New => new,
            };
            match outcome {
                Some(outcome) => Some(
                    (
                        ReadResult {
                            result: outcome.result,
                            origin,
                            old: old_report,
                            new: new_report,
                            consistent: verdict,
                        },
                        MigrationOp {
                            key,
                            operation: Operation::Read,
                            default_stage,
                            stage,
                            old: old_report,
                            new: new_report,
                            consistent: verdict,
                        },
                    ),
                ),
                None => None,
            }
        } else {
            None
        }
    }
}

/// What comes next in a write.
#[derive(Clone, Copy, Debug, PartialEq, Eq, Structural)]
pub enum WriteStep {
    /// Call this system and record what the call came to.
    Call(Origin),
    /// Nothing: the write can be finished.
    Done,
}

/// One write in progress.
pub struct WriteRun<T> {
    pub stage: Stage,
    pub settings: MigrationSettings,
    pub old: Option<Outcome<T>>,
    pub new: Option<Outcome<T>>,
}

/// What a write against one system came to.
pub struct OriginResult<T> {
    pub origin: Origin,
    pub result: Result<T, String>,
}

/// What a write came to: the result of the authoritative system, and that of
/// the other one where it was written to.
pub struct WriteResult<T> {
    pub authoritative: OriginResult<T>,
    pub nonauthoritative: Option<OriginResult<T>>,
}

/// The result of a write against `origin` that may have been made.
pub open spec fn origin_result_of<T>(origin: Origin, outcome: Option<Outcome<T>>) -> Option<
    OriginResult<T>,
> {
    match outcome {
        Some(outcome) => Some(OriginResult { origin, result: outcome.result }),
        None => None,
    }
}

impl<T> WriteRun<T> {
    /// What the run holds for `origin`.
    pub open spec fn outcome(self, origin: Origin) -> Option<Outcome<T>> {
        match origin {
            Origin::Old => self.old,
            Origin::New => self.new,
        }
    }

    /// The system whose result the caller gets.
    pub open spec fn authoritative(self) -> Origin {
        self.stage.spec_plan().authoritative
    }

    /// What comes next: the authoritative system first; the other one only
    /// where the stage asks for it and the authoritative write succeeded.
    pub open spec fn spec_next(self) -> WriteStep {
        let first = self.authoritative();
        let second = first.spec_other();
        match self.outcome(first) {
            None => WriteStep::Call(first),
            Some(written) => if written.result is Ok && self.stage.spec_plan().spec_runs(second)
                && self.outcome(second) is None {
                WriteStep::Call(second)
            } else {
                WriteStep::Done
            },
        }
    }

    /// The run after the call into `origin` came to `outcome`. What comes for
    /// a system whose turn it is not is left.
    pub open spec fn recorded(self, origin: Origin, outcome: Outcome<T>) -> WriteRun<T> {
        if self.spec_next() == WriteStep::Call(origin) {
            match origin {
                Origin::Old => WriteRun { old: Some(outcome), ..self },
                Origin::New => WriteRun { new: Some(outcome), ..self },
            }
        } else {
            self
        }
    }

    /// What the finished write came to.
    pub open spec fn result(self) -> WriteResult<T> {
        let first = self.authoritative();
        WriteResult {
            authoritative: OriginResult { origin: first, result: self.outcome(first)->Some_0.result },
            nonauthoritative: origin_result_of(
                first.spec_other(),
                self.outcome(first.spec_other()),
            ),
        }
    }

    /// The event that reports the finished write.
    pub open spec fn event(self, key: Seq<char>, default_stage: Stage)
        -> crate::events::event::MigrationOpView {
        crate::events::event::MigrationOpView {
            key,
            operation: Operation::Write,
            default_stage,
            stage: self.stage,
            old: report_of(self.old, self.settings),
            new: report_of(self.new, self.settings),
            consistent: None,
        }
    }

    /// A write at `stage` that has called nothing yet.
    pub fn begin(stage: Stage, settings: MigrationSettings) -> (run: Self)
        ensures
            run == (WriteRun::<T> { stage, settings, old: None, new: None }),
    {
        WriteRun { stage, settings, old: None, new: None }
    }

    /// What comes next.
    pub fn next(&self) -> (step: WriteStep)
        ensures
            step == self.spec_next(),
    {
        let plan = self.stage.plan();
        let first = plan.authoritative;
        let second = first.other();
        let (written, other) = match first {
            Origin::Old => (&self.old, &self.new),
            Origin::New => (&self.new, &self.old),
        };
        match written {
            None => WriteStep::Call(first),
            Some(written) => if written.result.is_ok() && plan.runs(second) && other.is_none() {
                WriteStep::Call(second)
            } else {
                WriteStep::Done
            },
        }
    }

    /// Records what the call into `origin` came to.
    pub fn record(&mut self, origin: Origin, outcome: Outcome<T>)
        ensures
            *final(self) == old(self).recorded(origin, outcome),
    {
        match self.next() {
            WriteStep::Call(due) => {
                if due == origin {
                    match origin {
                        Origin::Old => {
                            self.old = Some(outcome);
                        },
                        Origin::New => {
                            self.new = Some(outcome);
                        },
                    }
                }
            },
            WriteStep::Done => {},
        }
    }

    /// Finishes the write: the result for the caller and the event that
    /// reports the write under the flag `key`. `None` while a step is still to
    /// come.
    pub fn finish(self, key: String, default_stage: Stage) -> (finished: Option<
        (WriteResult<T>, MigrationOp),
    >)
        ensures
            match finished {
                Some((result, event)) => self.spec_next() == WriteStep::Done && result
                    == self.result() && event@ == self.event(key@, default_stage),
                None => self.spec_next() != WriteStep::Done,
            },
    {
        if let WriteStep::Done = self.next() {
            let WriteRun { stage, settings, old, new } = self;
            let old_report = make_report(&old, settings);
            let new_report = make_report(&new, settings);
            let first = stage.plan().authoritative;
            let (written, other) = match first {
                Origin::Old => (old, new),
                Origin::New => (new, old),
            };
            match written {
                Some(written) => Some(
                    (
                        WriteResult {
                            authoritative: OriginResult { origin: first, result: written.result },
                            nonauthoritative: match other {
                                Some(other) => Some(
                                    OriginResult { origin: first.other(), result: other.result },
                                ),
                                None => None,
                            },
                        },
                        MigrationOp {
                            key,
                            operation: Operation::Write,
                            default_stage,
                            stage,
                            old: old_report,
                            new: new_report,
                            consistent: None,
                        },
                    ),
                ),
                None => None,
            }
        } else {
            None
        }
    }
}

/// A read reports a verdict exactly when a comparison was asked for, both
/// systems were called and succeeded, and a verdict was recorded; the verdict
/// is the one recorded. Where a call failed, no verdict is reported, whatever
/// was recorded.
pub proof fn lemma_verdict_needs_two_results<T>(run: ReadRun<T>, consistent: bool)
    ensures
        run.result().consistent is Some ==> run.settings.track_consistency
            && run.both_succeeded(),
        (run.old matches Some(old) && old.result is Err) ==> run.result().consistent is None
            && run.compared(consistent).result().consistent is None,
        (run.new matches Some(new) && new.result is Err) ==> run.result().consistent is None
            && run.compared(consistent).result().consistent is None,
        run.spec_next() == ReadStep::Compare ==> run.compared(consistent).result().consistent
            == Some(consistent) && run.compared(consistent).spec_next() == ReadStep::Done,
        run.event(Seq::empty(), run.stage).consistent == run.result().consistent,
{
}

/// A read always ends with the result of the authoritative system; what the
/// other system came to changes neither the result nor whose it is.
pub proof fn lemma_read_surfaces_authoritative<T>(run: ReadRun<T>, shadow: Outcome<T>)
    requires
        run.stage.spec_plan().spec_runs(run.stage.spec_plan().authoritative.spec_other()),
    ensures
        run.recorded(run.stage.spec_plan().authoritative.spec_other(), shadow).result().result
            == run.result().result,
        run.recorded(run.stage.spec_plan().authoritative.spec_other(), shadow).result().origin
            == run.result().origin,
        run.spec_next() == ReadStep::Done ==> run.outcome(run.stage.spec_plan().authoritative)
            is Some,
{
}

/// Where the authoritative write fails, the other system is never called: the
/// write is done at once, its result is that failure, and the report says that
/// the other system was not called. Where errors are tracked the report shows
/// the failure.
pub proof fn lemma_failed_write_stops<T>(
    stage: Stage,
    settings: MigrationSettings,
    failure: Outcome<T>,
)
    requires
        failure.result is Err,
    ensures
        ({
            let start = WriteRun::<T> { stage, settings, old: None, new: None };
            let first = stage.spec_plan().authoritative;
            let run = start.recorded(first, failure);
            &&& start.spec_next() == WriteStep::Call(first)
            &&& run.spec_next() == WriteStep::Done
            &&& run.outcome(first.spec_other()) is None
            &&& run.result().authoritative.result == failure.result
            &&& run.result().authoritative.origin == first
            &&& run.result().nonauthoritative is None
            &&& !report_of(run.outcome(first.spec_other()), settings).invoked
            &&& report_of(run.outcome(first), settings).error == settings.track_errors
        }),
{
}

/// A write calls the authoritative system first, and the other one only after
/// the authoritative write succeeded.
pub proof fn lemma_write_order<T>(run: WriteRun<T>)
    ensures
        run.spec_next() == WriteStep::Call(run.authoritative().spec_other()) ==> run.outcome(
            run.authoritative(),
        ) is Some && run.outcome(run.authoritative())->Some_0.result is Ok,
        run.outcome(run.authoritative()) is None ==> run.spec_next() == WriteStep::Call(
            run.authoritative(),
        ),
{
}

/// Collects the settings of a migrator and the functions that reach the two
/// systems.
pub struct MigratorBuilder<R, W> {
    settings: MigrationSettings,
    read_old: Option<R>,
    read_new: Option<R>,
    write_old: Option<W>,
    write_new: Option<W>,
}

/// The settings of a migration and the functions that reach the two systems.
pub struct Migrator<R, W> {
    pub settings: MigrationSettings,
    pub read_old: R,
    pub read_new: R,
    pub write_old: W,
    pub write_new: W,
}

/// What [MigratorBuilder::build] says where the functions that read are
/// missing.
pub open spec fn missing_read_message() -> Seq<char> {
    "read configuration not provided"@
}

/// What [MigratorBuilder::build] says where the functions that write are
/// missing.
pub open spec fn missing_write_message() -> Seq<char> {
    "write configuration not provided"@
}

impl<R, W> MigratorBuilder<R, W> {
    /// The settings collected so far.
    pub closed spec fn spec_settings(self) -> MigrationSettings {
        self.settings
    }

    /// The functions that read from the old and the new system, if given.
    pub closed spec fn spec_read(self) -> Option<(R, R)> {
        match (self.read_old, self.read_new) {
            (Some(old), Some(new)) => Some((old, new)),
            _ => None,
        }
    }

    /// The functions that write to the old and the new system, if given.
    pub closed spec fn spec_write(self) -> Option<(W, W)> {
        match (self.write_old, self.write_new) {
            (Some(old), Some(new)) => Some((old, new)),
            _ => None,
        }
    }

    /// A builder without functions that reads both systems at the same time,
    /// tracks latency and errors, and compares nothing.
    pub fn new() -> (builder: Self)
        ensures
            builder.spec_settings() == (MigrationSettings {
                read_execution_order: ExecutionOrder::Parallel,
                track_latency: true,
                track_errors: true,
                track_consistency: false,
            }),
            builder.spec_read() is None,
            builder.spec_write() is None,
    {
        MigratorBuilder {
            settings: MigrationSettings {
                read_execution_order: ExecutionOrder::Parallel,
                track_latency: true,
                track_errors: true,
                track_consistency: false,
            },
            read_old: None,
            read_new: None,
            write_old: None,
            write_new: None,
        }
    }

    /// Sets the order in which reads run against two systems.
    pub fn read_execution_order(self, order: ExecutionOrder) -> (builder: Self)
        ensures
            builder.spec_settings() == (MigrationSettings {
                read_execution_order: order,
                ..self.spec_settings()
            }),
            builder.spec_read() == self.spec_read(),
            builder.spec_write() == self.spec_write(),
    {
        let mut builder = self;
        builder.settings.read_execution_order = order;
        builder
    }

    /// Sets whether the time that calls take is reported.
    pub fn track_latency(self, track: bool) -> (builder: Self)
        ensures
            builder.spec_settings() == (MigrationSettings {
                track_latency: track,
                ..self.spec_settings()
            }),
            builder.spec_read() == self.spec_read(),
            builder.spec_write() == self.spec_write(),
    {
        let mut builder = self;
        builder.settings.track_latency = track;
        builder
    }

    /// Sets whether failed calls are reported.
    pub fn track_errors(self, track: bool) -> (builder: Self)
        ensures
            builder.spec_settings() == (MigrationSettings {
                track_errors: track,
                ..self.spec_settings()
            }),
            builder.spec_read() == self.spec_read(),
            builder.spec_write() == self.spec_write(),
    {
        let mut builder = self;
        builder.settings.track_errors = track;
        builder
    }

    /// Gives the functions that read from the old and from the new system,
    /// and says whether their results are compared.
    pub fn read(self, old: R, new: R, compare: bool) -> (builder: Self)
        ensures
            builder.spec_settings() == (MigrationSettings {
                track_consistency: compare,
                ..self.spec_settings()
            }),
            builder.spec_read() == Some((old, new)),
            builder.spec_write() == self.spec_write(),
    {
        let mut builder = self;
        builder.settings.track_consistency = compare;
        builder.read_old = Some(old);
        builder.read_new = Some(new);
        builder
    }

    /// Gives the functions that write to the old and to the new system.
    pub fn write(self, old: W, new: W) -> (builder: Self)
        ensures
            builder.spec_settings() == self.spec_settings(),
            builder.spec_read() == self.spec_read(),
            builder.spec_write() == Some((old, new)),
    {
        let mut builder = self;
        builder.write_old = Some(old);
        builder.write_new = Some(new);
        builder
    }

    /// Makes the migrator. Every stage can come up while the migrator is in
    /// use, so the build fails unless the functions that read and those that
    /// write were all given.
    pub fn build(self) -> (built: Result<Migrator<R, W>, BuildError>)
        ensures
            match built {
                Ok(migrator) => self.spec_read() == Some((migrator.read_old, migrator.read_new))
                    && self.spec_write() == Some((migrator.write_old, migrator.write_new))
                    && migrator.settings == self.spec_settings(),
                Err(BuildError::InvalidConfig(message)) => if self.spec_read() is None {
                    message@ == missing_read_message()
                } else {
                    self.spec_write() is None && message@ == missing_write_message()
                },
            },
    {
        let MigratorBuilder { settings, read_old, read_new, write_old, write_new } = self;
        match (read_old, read_new) {
            (Some(read_old), Some(read_new)) => match (write_old, write_new) {
                (Some(write_old), Some(write_new)) => Ok(
                    Migrator { settings, read_old, read_new, write_old, write_new },
                ),
                _ => Err(BuildError::InvalidConfig("write configuration not provided".to_owned())),
            },
            _ => Err(BuildError::InvalidConfig("read configuration not provided".to_owned())),
        }
    }
}

impl<R, W> Migrator<R, W> {
    /// The function that reads from `origin`.
    pub fn read_origin(&self, origin: Origin) -> (function: &R)
        ensures
            *function == match origin {
                Origin::Old => self.read_old,
                Origin::New => self.read_new,
            },
    {
        match origin {
            Origin::Old => &self.read_old,
            Origin::New => &self.read_new,
        }
    }

    /// The function that writes to `origin`.
    pub fn write_origin(&self, origin: Origin) -> (function: &W)
        ensures
            *function == match origin {
                Origin::Old => self.write_old,
                Origin::New => self.write_new,
            },
    {
        match origin {
            Origin::Old => &self.write_old,
            Origin::New => &self.write_new,
        }
    }

    /// Starts a read at `stage`. Where the order is left to chance, the old
    /// system goes first if `old_first`.
    pub fn read<T>(&self, stage: Stage, old_first: bool) -> (run: ReadRun<T>)
        ensures
            run == (ReadRun::<T> {
                stage,
                settings: self.settings,
                first: if old_first {
                    Origin::Old
                } else {
                    Origin::New
                },
                old: None,
                new: None,
                consistent: None,
            }),
    {
        ReadRun::begin(stage, self.settings, old_first)
    }

    /// Starts a write at `stage`.
    pub fn write<T>(&self, stage: Stage) -> (run: WriteRun<T>)
        ensures
            run == (WriteRun::<T> { stage, settings: self.settings, old: None, new: None }),
    {
        WriteRun::begin(stage, self.settings)
    }
}

} // verus!
