//! The stages of a migration from an old system to a new one, and what each
//! stage asks of the two systems.

use crate::text::same_text;
use vstd::prelude::*;

verus! {

/// One of the two systems that a migration moves between.
#[derive(Clone, Copy, Debug, PartialEq, Eq, Structural)]
pub enum Origin {
    Old,
    New,
}

/// What is done against the systems.
#[derive(Clone, Copy, Debug, PartialEq, Eq, Structural)]
pub enum Operation {
    Read,
    Write,
}

/// How far a migration has come. The stage fixes which systems take part in
/// an operation and which one of them the caller's result comes from.
#[derive(Clone, Copy, Debug, PartialEq, Eq, Structural)]
pub enum Stage {
    /// Only the old system is used.
    OldOnly,
    /// Both are used; the old system is authoritative and the new one is
    /// shadowed.
    Shadow,
    /// Both are used; the new system is authoritative and the old one is
    /// shadowed.
    Live,
    /// Only the new system is used.
    NewOnly,
}

/// Which systems an operation runs against, and which one is authoritative.
#[derive(Clone, Copy, Debug, PartialEq, Eq, Structural)]
pub struct StagePlan {
    pub run_old: bool,
    pub run_new: bool,
    pub authoritative: Origin,
}

/// The stage that the value of a migration flag names, if it names one.
pub open spec fn stage_named(name: Seq<char>) -> Option<Stage> {
    if name == "off"@ {
        Some(Stage::OldOnly)
    } else if name == "shadow"@ {
        Some(Stage::Shadow)
    } else if name == "live"@ {
        Some(Stage::Live)
    } else if name == "complete"@ {
        Some(Stage::NewOnly)
    } else {
        None
    }
}

/// The stage of an operation: the one that the flag names, and `default_stage`
/// where the flag gave no value or names no stage.
pub open spec fn stage_resolved(value: Option<Seq<char>>, default_stage: Stage) -> Stage {
    match value {
        Some(name) => match stage_named(name) {
            Some(stage) => stage,
            None => default_stage,
        },
        None => default_stage,
    }
}

impl Stage {
    /// The stage that the value of a migration flag names, if it names one.
    pub fn parse(name: &str) -> (stage: Option<Stage>)
        ensures
            stage == stage_named(name@),
    {
        if same_text(name, "off") {
            Some(Stage::OldOnly)
        } else if same_text(name, "shadow") {
            Some(Stage::Shadow)
        } else if same_text(name, "live") {
            Some(Stage::Live)
        } else if same_text(name, "complete") {
            Some(Stage::NewOnly)
        } else {
            None
        }
    }

    /// The stage of an operation: the one that the flag names, and
    /// `default_stage` where the flag gave no value or names no stage.
    pub fn resolve(value: &Option<String>, default_stage: Stage) -> (stage: Stage)
        ensures
            stage == stage_resolved(crate::events::event::text_of(*value), default_stage),
    {
        match value {
            Some(name) => match Stage::parse(name.as_str()) {
                Some(stage) => stage,
                None => default_stage,
            },
            None => default_stage,
        }
    }

    /// The name of this stage as the value of a migration flag writes it.
    pub fn name(self) -> (name: &'static str)
        ensures
            name@ == match self {
                Stage::OldOnly => "off"@,
                Stage::Shadow => "shadow"@,
                Stage::Live => "live"@,
                Stage::NewOnly => "complete"@,
            },
    {
        match self {
            Stage::OldOnly => "off",
            Stage::Shadow => "shadow",
            Stage::Live => "live",
            Stage::NewOnly => "complete",
        }
    }

    /// What this stage asks for.
    pub open spec fn spec_plan(self) -> StagePlan {
        match self {
            Stage::OldOnly => StagePlan {
                run_old: true,
                run_new: false,
                authoritative: Origin::Old,
            },
            Stage::Shadow => StagePlan { run_old: true, run_new: true, authoritative: Origin::Old },
            Stage::Live => StagePlan { run_old: true, run_new: true, authoritative: Origin::New },
            Stage::NewOnly => StagePlan {
                run_old: false,
                run_new: true,
                authoritative: Origin::New,
            },
        }
    }

    /// What this stage asks for.
    #[verifier::when_used_as_spec(spec_plan)]
    pub fn plan(self) -> (plan: StagePlan)
        ensures
            plan == self.spec_plan(),
    {
        match self {
            Stage::OldOnly => StagePlan {
                run_old: true,
                run_new: false,
                authoritative: Origin::Old,
            },
            Stage::Shadow => StagePlan { run_old: true, run_new: true, authoritative: Origin::Old },
            Stage::Live => StagePlan { run_old: true, run_new: true, authoritative: Origin::New },
            Stage::NewOnly => StagePlan {
                run_old: false,
                run_new: true,
                authoritative: Origin::New,
            },
        }
    }
}

impl StagePlan {
    /// Whether the plan runs against `origin`.
    pub open spec fn spec_runs(self, origin: Origin) -> bool {
        match origin {
            Origin::Old => self.run_old,
            Origin::New => self.run_new,
        }
    }

    /// Whether the plan runs against `origin`.
    #[verifier::when_used_as_spec(spec_runs)]
    pub fn runs(self, origin: Origin) -> (runs: bool)
        ensures
            runs == self.spec_runs(origin),
    {
        match origin {
            Origin::Old => self.run_old,
            Origin::New => self.run_new,
        }
    }
}

impl Origin {
    /// The other of the two systems.
    pub open spec fn spec_other(self) -> Origin {
        match self {
            Origin::Old => Origin::New,
            Origin::New => Origin::Old,
        }
    }

    /// The other of the two systems.
    #[verifier::when_used_as_spec(spec_other)]
    pub fn other(self) -> (other: Origin)
        ensures
            other == self.spec_other(),
    {
        match self {
            Origin::Old => Origin::New,
            Origin::New => Origin::Old,
        }
    }
}

/// The name of a stage names that stage.
pub proof fn lemma_stage_names_round_trip()
    ensures
        stage_named("off"@) == Some(Stage::OldOnly),
        stage_named("shadow"@) == Some(Stage::Shadow),
        stage_named("live"@) == Some(Stage::Live),
        stage_named("complete"@) == Some(Stage::NewOnly),
{
    reveal_strlit("off");
    reveal_strlit("shadow");
    reveal_strlit("live");
    reveal_strlit("complete");
    assert("off"@.len() == 3 && "shadow"@.len() == 6 && "live"@.len() == 4 && "complete"@.len()
        == 8);
}

/// Every stage runs against its authoritative system.
pub proof fn lemma_authoritative_always_runs(stage: Stage)
    ensures
        stage.spec_plan().spec_runs(stage.spec_plan().authoritative),
{
}

/// What an operation did against one system, as far as it is to be reported.
#[derive(Clone, Copy, Debug, PartialEq, Eq, Structural)]
pub struct OriginReport {
    /// Whether the system was called.
    pub invoked: bool,
    /// How long the call took in milliseconds, where latency is tracked.
    pub latency_ms: Option<u64>,
    /// Whether the call failed, where errors are tracked.
    pub error: bool,
}

} // verus!
