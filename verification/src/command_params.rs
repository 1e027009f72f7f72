//! What a test harness sends to an SDK client under test, and what it gets
//! back.

use crate::events::context::{Attribute, Context};
use crate::migration::{Operation, Stage};
use crate::migrator::ExecutionOrder;
use vstd::prelude::*;

verus! {

/// The tags that say which application a client belongs to.
pub struct Tags {
    pub application_id: Option<String>,
    pub application_version: Option<String>,
}

/// Base addresses that replace the usual ones.
pub struct ServiceEndpointsParams {
    pub streaming: Option<String>,
    pub polling: Option<String>,
    pub events: Option<String>,
}

/// How a client streams flag data.
pub struct StreamingParams {
    pub base_uri: Option<String>,
    pub initial_retry_delay_ms: Option<u64>,
}

/// How a client polls flag data.
pub struct PollingParams {
    pub base_uri: Option<String>,
    pub poll_interval_ms: Option<u64>,
}

/// How a client reports events.
pub struct EventParams {
    pub base_uri: Option<String>,
    pub capacity: Option<usize>,
    pub all_attributes_private: bool,
    pub enable_gzip: Option<bool>,
    pub flush_interval_ms: Option<u64>,
    pub global_private_attributes: Option<Vec<String>>,
    pub omit_anonymous_contexts: bool,
}

/// How a client is set up.
pub struct Configuration {
    pub credential: String,
    pub tags: Option<Tags>,
    pub service_endpoints: Option<ServiceEndpointsParams>,
    pub streaming: Option<StreamingParams>,
    pub polling: Option<PollingParams>,
    pub events: Option<EventParams>,
}

/// What a harness sends to have a client made.
pub struct CreateInstanceParams {
    pub configuration: Configuration,
}

/// What to evaluate. `V` is the type of flag values.
pub struct EvaluateFlagParams<V> {
    pub flag_key: String,
    pub context: Context,
    pub value_type: String,
    pub default_value: V,
    pub detail: bool,
}

/// What an evaluation gave, with its variation and reason. `V` is the type of
/// flag values, `R` that of reasons.
pub struct Detail<V, R> {
    pub value: Option<V>,
    pub variation_index: Option<usize>,
    pub reason: R,
}

/// What an evaluation gave: the value alone, or the value with its variation
/// and reason.
pub enum Evaluated<V, R> {
    Value(V),
    Detail(Detail<V, R>),
}

/// What a harness gets back for an evaluation.
pub struct EvaluateFlagResponse<V, R> {
    pub value: Option<V>,
    pub variation_index: Option<usize>,
    pub reason: Option<R>,
}

/// What to evaluate all flags for, and how.
pub struct EvaluateAllFlagsParams {
    pub context: Context,
    pub with_reasons: bool,
    pub client_side_only: bool,
    pub details_only_for_tracked_flags: bool,
}

/// What the state of all flags is to hold.
#[derive(Clone, Copy, Debug, PartialEq, Eq, Structural)]
pub struct FlagDetailConfig {
    pub client_side_only: bool,
    pub with_reasons: bool,
    pub details_only_for_tracked_flags: bool,
}

/// A custom event to report. `data` and `metric_value` are JSON text.
pub struct CustomEventParams {
    pub event_key: String,
    pub context: Context,
    pub data: Option<String>,
    pub metric_value: Option<String>,
}

/// A context to identify.
pub struct IdentifyEventParams {
    pub context: Context,
}

/// One context to build. `name` and the values of `custom` are JSON text.
pub struct ContextParam {
    pub kind: Option<String>,
    pub key: String,
    pub name: Option<String>,
    pub anonymous: Option<bool>,
    pub private: Option<Vec<String>>,
    pub custom: Option<Vec<Attribute>>,
}

/// A context to build: a single one, or one of several kinds.
pub struct ContextBuildParams {
    pub single: Option<ContextParam>,
    pub multi: Option<Vec<ContextParam>>,
}

/// A context to read from JSON and write out again.
pub struct ContextConvertParams {
    pub input: String,
}

/// A context to hash.
pub struct SecureModeHashParams {
    pub context: Context,
}

/// A migration flag to ask for its stage.
pub struct MigrationVariationParams {
    pub key: String,
    pub context: Context,
    pub default_stage: Stage,
}

/// A migration operation to run against two endpoints of the harness.
pub struct MigrationOperationParams {
    pub key: String,
    pub context: Context,
    pub default_stage: Stage,
    pub operation: Operation,
    pub read_execution_order: ExecutionOrder,
    pub track_latency: bool,
    pub track_errors: bool,
    pub track_consistency: bool,
    pub old_endpoint: String,
    pub new_endpoint: String,
    pub payload: Option<String>,
}

/// One command of the harness: its name and the parameters that go with it.
pub struct CommandParams<V> {
    pub command: String,
    pub evaluate: Option<EvaluateFlagParams<V>>,
    pub evaluate_all: Option<EvaluateAllFlagsParams>,
    pub custom_event: Option<CustomEventParams>,
    pub identify_event: Option<IdentifyEventParams>,
    pub context_build: Option<ContextBuildParams>,
    pub context_convert: Option<ContextConvertParams>,
    pub secure_mode_hash: Option<SecureModeHashParams>,
    pub migration_variation: Option<MigrationVariationParams>,
    pub migration_operation: Option<MigrationOperationParams>,
}

impl FlagDetailConfig {
    /// A configuration that asks for all flags, without reasons, with the
    /// details of every flag.
    pub fn new() -> (config: Self)
        ensures
            config == (FlagDetailConfig {
                client_side_only: false,
                with_reasons: false,
                details_only_for_tracked_flags: false,
            }),
    {
        FlagDetailConfig {
            client_side_only: false,
            with_reasons: false,
            details_only_for_tracked_flags: false,
        }
    }

    /// Asks for the flags that client-side SDKs may see only.
    pub fn client_side_only(&mut self) -> (config: &mut Self)
        ensures
            *config == (FlagDetailConfig { client_side_only: true, ..*old(self) }),
            *final(self) == *final(config),
    {
        self.client_side_only = true;
        self
    }

    /// Asks for the reason of every evaluation.
    pub fn with_reasons(&mut self) -> (config: &mut Self)
        ensures
            *config == (FlagDetailConfig { with_reasons: true, ..*old(self) }),
            *final(self) == *final(config),
    {
        self.with_reasons = true;
        self
    }

    /// Asks for details only of the flags whose evaluations are tracked.
    pub fn details_only_for_tracked_flags(&mut self) -> (config: &mut Self)
        ensures
            *config == (FlagDetailConfig { details_only_for_tracked_flags: true, ..*old(self) }),
            *final(self) == *final(config),
    {
        self.details_only_for_tracked_flags = true;
        self
    }
}

} // verus!
