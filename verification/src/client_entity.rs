//! The entity through which a test harness drives one SDK client: it sets the
//! client up from what the harness sends, and says what each command of the
//! harness asks of the client.

use crate::command_params::{
    CommandParams, Configuration, ContextBuildParams, ContextConvertParams, ContextParam,
    CreateInstanceParams, CustomEventParams, Evaluated, EvaluateAllFlagsParams,
    EvaluateFlagParams, EvaluateFlagResponse, FlagDetailConfig, MigrationOperationParams,
    MigrationVariationParams,
};
use crate::context_builders::{
    check_multi_context, check_single_context, context_converts, convert_context,
    multi_builder_add, multi_builder_new, multi_context_fault, multi_kinds, single_context_fault,
};
use crate::data_source::{DataSource, DataSourceView};
use crate::data_source_builders::{
    BuildError, DataSourceFactory, PollingDataSourceBuilder, StreamingDataSourceBuilder,
};
use crate::events::context::{
    attributes_view, names_view, Attribute, Context, ContextView,
};
use crate::events::event::{text_of, CustomView, InputEventView, InputPayloadView, OutputEvent};
use crate::events::processor::{EventProcessor, ProcessorView};
use crate::events::EventsConfiguration;
use crate::interval::Interval;
use crate::service_endpoints::ServiceEndpoints;
use crate::text::{join, same_text};
use vstd::prelude::*;
use vstd::string::StringExecFns;

verus! {

/// Events that a batch holds at most, unless the harness says otherwise.
pub const DEFAULT_EVENT_CAPACITY: usize = 500;

/// Seconds between two flushes, unless the harness says otherwise.
pub const DEFAULT_FLUSH_INTERVAL_SECS: u64 = 5;

/// Contexts that are remembered as seen at most.
pub const DEFAULT_CONTEXT_KEYS_CAPACITY: usize = 1000;

/// Seconds for which a context that was seen counts as known.
pub const DEFAULT_CONTEXT_KEYS_FLUSH_INTERVAL_SECS: u64 = 300;

/// The kinds of value that a flag can be evaluated as.
#[derive(Clone, Copy, Debug, PartialEq, Eq, Structural)]
pub enum ValueKind {
    Bool,
    Int,
    Double,
    String,
    Json,
}

/// The kind of value that the harness names by `value_type`; what names none
/// of the others is JSON.
pub open spec fn value_kind_of(value_type: Seq<char>) -> ValueKind {
    if value_type == "bool"@ {
        ValueKind::Bool
    } else if value_type == "int"@ {
        ValueKind::Int
    } else if value_type == "double"@ {
        ValueKind::Double
    } else if value_type == "string"@ {
        ValueKind::String
    } else {
        ValueKind::Json
    }
}

/// The evaluation that a command asks of the client.
#[derive(Clone, Copy, Debug, PartialEq, Eq, Structural)]
pub struct VariationCall {
    pub kind: ValueKind,
    /// Whether the variation and the reason are asked for with the value.
    pub detail: bool,
}

/// The kind of a context to build: the one given, else `user`.
pub open spec fn kind_of(single: ContextParam) -> Seq<char> {
    match single.kind {
        Some(kind) => kind@,
        None => "user"@,
    }
}

/// The attributes of a context to build: its name, if it has one, as the
/// attribute `name`, then its custom attributes.
pub open spec fn attributes_of(single: ContextParam) -> Seq<(Seq<char>, Seq<char>)> {
    (match single.name {
        Some(name) => seq![("name"@, name@)],
        None => Seq::empty(),
    }) + match single.custom {
        Some(custom) => attributes_view(custom@),
        None => Seq::empty(),
    }
}

/// The context that `single` describes, where the evaluation crate finds no
/// fault with its kind and key.
pub open spec fn context_of(single: ContextParam) -> ContextView {
    ContextView {
        kind: kind_of(single),
        key: single.key@,
        anonymous: match single.anonymous {
            Some(anonymous) => anonymous,
            None => false,
        },
        attributes: attributes_of(single),
        private_attributes: match single.private {
            Some(private) => names_view(private@),
            None => Seq::empty(),
        },
    }
}

/// What building `single` gives: the context, or the words of the evaluation
/// crate on what is wrong with its kind or key.
pub open spec fn built_single(single: ContextParam) -> Result<ContextView, Seq<char>> {
    match single_context_fault(kind_of(single), single.key@) {
        Some(fault) => Err(fault),
        None => Ok(context_of(single)),
    }
}

/// The kinds of the contexts to build.
pub open spec fn kinds_of(list: Seq<ContextParam>) -> Seq<Seq<char>> {
    list.map_values(|single: ContextParam| kind_of(single))
}

/// The contexts that `list` describes.
pub open spec fn contexts_of(list: Seq<ContextParam>) -> Seq<ContextView> {
    list.map_values(|single: ContextParam| context_of(single))
}

/// The place of the first of `list` whose kind or key is at fault, or the
/// length of `list` where none is.
pub open spec fn first_fault(list: Seq<ContextParam>) -> int
    decreases list.len(),
{
    if list.len() == 0 {
        0
    } else if single_context_fault(kind_of(list[0]), list[0].key@) is Some {
        0
    } else {
        1 + first_fault(list.skip(1))
    }
}

/// A context that was built: a single one, or one of several kinds.
pub enum BuiltContext {
    Single(Context),
    Multi(Vec<Context>),
}

/// A [BuiltContext] as plain mathematical values.
pub enum BuiltContextView {
    Single(ContextView),
    Multi(Seq<ContextView>),
}

impl View for BuiltContext {
    type V = BuiltContextView;

    open spec fn view(&self) -> BuiltContextView {
        match self {
            BuiltContext::Single(context) => BuiltContextView::Single(context@),
            BuiltContext::Multi(contexts) => BuiltContextView::Multi(
                contexts@.map_values(|context: Context| context@),
            ),
        }
    }
}

/// What building a context of the kinds of `list` gives: the fault of the
/// first context that has one; else the fault that the evaluation crate finds
/// with the kinds together; else the context itself where there is one only,
/// and the contexts together where there are more.
pub open spec fn built_multi(list: Seq<ContextParam>) -> Result<BuiltContextView, Seq<char>> {
    let at = first_fault(list);
    if at < list.len() {
        Err(single_context_fault(kind_of(list[at]), list[at].key@)->Some_0)
    } else {
        match multi_context_fault(kinds_of(list)) {
            Some(fault) => Err(fault),
            None => if list.len() == 1 {
                Ok(BuiltContextView::Single(context_of(list[0])))
            } else {
                Ok(BuiltContextView::Multi(contexts_of(list)))
            },
        }
    }
}

/// What the harness is told where it asks for a context without saying which.
pub open spec fn neither_message() -> Seq<char> {
    "either 'single' or 'multi' required for contextBuild command"@
}

/// What building the context of `params` gives.
pub open spec fn built_context(params: ContextBuildParams) -> Result<BuiltContextView, Seq<char>> {
    match params.single {
        Some(single) => match built_single(single) {
            Ok(context) => Ok(BuiltContextView::Single(context)),
            Err(fault) => Err(fault),
        },
        None => match params.multi {
            Some(multi) => built_multi(multi@),
            None => Err(neither_message()),
        },
    }
}

/// The first fault of a list lies behind a head that has none.
proof fn lemma_first_fault_skips(list: Seq<ContextParam>, n: int)
    requires
        0 <= n <= list.len(),
        forall|i: int|
            0 <= i < n ==> single_context_fault(kind_of(#[trigger] list[i]), list[i].key@)
                is None,
    ensures
        first_fault(list) == n + first_fault(list.skip(n)),
    decreases n,
{
    if n == 0 {
        assert(list.skip(0) =~= list);
    } else {
        lemma_first_fault_skips(list.skip(1), n - 1);
        assert forall|i: int| 0 <= i < n - 1 implies single_context_fault(
            kind_of(#[trigger] list.skip(1)[i]),
            list.skip(1)[i].key@,
        ) is None by {
            assert(list.skip(1)[i] == list[i + 1]);
        }
        assert(list.skip(1).skip(n - 1) =~= list.skip(n));
    }
}

/// One SDK client under the control of a test harness.
pub struct ClientEntity {
    sdk_key: String,
    tags: Option<String>,
    endpoints: ServiceEndpoints,
    data_source: DataSource,
    events: Option<EventProcessor>,
    compress_events: bool,
}

/// The address that flag data is streamed from, unless the harness says
/// otherwise.
pub open spec fn default_stream_base_url() -> Seq<char> {
    "https://stream.launchdarkly.com"@
}

/// The address that flag data is polled from, unless the harness says
/// otherwise.
pub open spec fn default_polling_base_url() -> Seq<char> {
    "https://sdk.launchdarkly.com"@
}

/// The address that events are sent to, unless the harness says otherwise.
pub open spec fn default_events_base_url() -> Seq<char> {
    "https://events.launchdarkly.com"@
}

/// The first of the two texts that is there, else `fallback`.
pub open spec fn first_of(first: Option<Seq<char>>, second: Option<Seq<char>>, fallback: Seq<char>)
    -> Seq<char> {
    match first {
        Some(text) => text,
        None => match second {
            Some(text) => text,
            None => fallback,
        },
    }
}

/// Whether the client polls: the harness asks for polling and not for
/// streaming.
pub open spec fn polls(configuration: Configuration) -> bool {
    configuration.streaming is None && configuration.polling is Some
}

/// The base address of the streaming service: the one set for streaming, else
/// the one set among the service endpoints, else the usual one.
pub open spec fn streaming_url_of(configuration: Configuration) -> Seq<char> {
    first_of(
        match configuration.streaming {
            Some(streaming) => text_of(streaming.base_uri),
            None => None,
        },
        match configuration.service_endpoints {
            Some(endpoints) => text_of(endpoints.streaming),
            None => None,
        },
        default_stream_base_url(),
    )
}

/// The base address of the polling service: the one set for polling where the
/// client polls, else the one set among the service endpoints, else the usual
/// one.
pub open spec fn polling_url_of(configuration: Configuration) -> Seq<char> {
    first_of(
        if polls(configuration) {
            text_of(configuration.polling->Some_0.base_uri)
        } else {
            None
        },
        match configuration.service_endpoints {
            Some(endpoints) => text_of(endpoints.polling),
            None => None,
        },
        default_polling_base_url(),
    )
}

/// The base address of the events service: the one set for events, else the
/// one set among the service endpoints, else the usual one.
pub open spec fn events_url_of(configuration: Configuration) -> Seq<char> {
    first_of(
        match configuration.events {
            Some(events) => text_of(events.base_uri),
            None => None,
        },
        match configuration.service_endpoints {
            Some(endpoints) => text_of(endpoints.events),
            None => None,
        },
        default_events_base_url(),
    )
}

/// The tags that the client sends: the identifier and the version of the
/// application, as far as the harness gave them.
pub open spec fn tags_of(configuration: Configuration) -> Option<Seq<char>> {
    match configuration.tags {
        None => None,
        Some(tags) => match (tags.application_id, tags.application_version) {
            (Some(id), Some(version)) => Some(
                "application-id/"@ + id@ + " application-version/"@ + version@,
            ),
            (Some(id), None) => Some("application-id/"@ + id@),
            (None, Some(version)) => Some("application-version/"@ + version@),
            (None, None) => None,
        },
    }
}

/// The time between two polls: the one that the harness asks for, but thirty
/// seconds at the least; thirty seconds where it asks for none.
pub open spec fn poll_interval_of(configuration: Configuration) -> Interval {
    match configuration.polling->Some_0.poll_interval_ms {
        Some(millis) => if millis as nat * 1_000_000 < 30_000_000_000 {
            Interval::of_nanos(30_000_000_000)
        } else {
            Interval::of_nanos(millis as nat * 1_000_000)
        },
        None => Interval::of_nanos(30_000_000_000),
    }
}

/// The delay before the first reconnect attempt: the one that the harness
/// asks for, else one second.
pub open spec fn reconnect_delay_of(configuration: Configuration) -> Interval {
    match configuration.streaming {
        Some(streaming) => match streaming.initial_retry_delay_ms {
            Some(millis) => Interval::of_nanos(millis as nat * 1_000_000),
            None => Interval::of_nanos(1_000_000_000),
        },
        None => Interval::of_nanos(1_000_000_000),
    }
}

/// The data source of the client, or the words of the failure to build it.
/// The client streams unless the harness asks for polling only; the harness
/// supplies the connector.
pub open spec fn source_of(configuration: Configuration) -> Result<DataSourceView, Seq<char>> {
    if polls(configuration) {
        Ok(
            DataSourceView::Polling {
                base_url: polling_url_of(configuration),
                sdk_key: configuration.credential@,
                poll_interval: poll_interval_of(configuration),
                tags: tags_of(configuration),
                connector: crate::data_source::ConnectorChoice::Supplied,
            },
        )
    } else {
        match crate::data_source::streaming_source(
            streaming_url_of(configuration),
            configuration.credential@,
            reconnect_delay_of(configuration),
            tags_of(configuration),
            crate::data_source::ConnectorChoice::Supplied,
        ) {
            Ok(source) => Ok(source),
            Err(fault) => Err(crate::data_source_builders::invalid_stream_url_prefix() + fault),
        }
    }
}

/// How the event pipeline of the client is set up, if the client reports
/// events.
pub open spec fn events_of(configuration: Configuration) -> Option<
    crate::events::EventsConfigurationView,
> {
    match configuration.events {
        Some(events) => Some(
            crate::events::EventsConfigurationView {
                capacity: match events.capacity {
                    Some(capacity) => capacity as nat,
                    None => DEFAULT_EVENT_CAPACITY as nat,
                },
                flush_interval: match events.flush_interval_ms {
                    Some(millis) => Interval::of_nanos(millis as nat * 1_000_000),
                    None => Interval::of_nanos(5_000_000_000),
                },
                context_keys_capacity: DEFAULT_CONTEXT_KEYS_CAPACITY as nat,
                context_keys_flush_interval: Interval::of_nanos(300_000_000_000),
                all_attributes_private: events.all_attributes_private,
                private_attributes: match events.global_private_attributes {
                    Some(names) => names_view(names@),
                    None => Seq::empty(),
                },
                omit_anonymous_contexts: events.omit_anonymous_contexts,
            },
        ),
        None => None,
    }
}

/// The first of the two texts that is there, else `fallback`.
fn pick(first: Option<String>, second: Option<String>, fallback: &str) -> (picked: String)
    ensures
        picked@ == first_of(text_of(first), text_of(second), fallback@),
{
    match first {
        Some(text) => text,
        None => match second {
            Some(text) => text,
            None => fallback.to_owned(),
        },
    }
}

/// The tags that the client sends.
fn make_tags(tags: Option<crate::command_params::Tags>) -> (made: Option<String>)
    ensures
        text_of(made) == match tags {
            None => None,
            Some(tags) => match (tags.application_id, tags.application_version) {
                (Some(id), Some(version)) => Some(
                    "application-id/"@ + id@ + " application-version/"@ + version@,
                ),
                (Some(id), None) => Some("application-id/"@ + id@),
                (None, Some(version)) => Some("application-version/"@ + version@),
                (None, None) => None,
            },
        },
{
    match tags {
        None => None,
        Some(tags) => match (tags.application_id, tags.application_version) {
            (Some(id), Some(version)) => {
                let mut text = join("application-id/", id.as_str());
                text.append(" application-version/");
                text.append(version.as_str());
                Some(text)
            },
            (Some(id), None) => Some(join("application-id/", id.as_str())),
            (None, Some(version)) => Some(join("application-version/", version.as_str())),
            (None, None) => None,
        },
    }
}

impl ClientEntity {
    /// The credential of the client.
    pub closed spec fn spec_sdk_key(&self) -> Seq<char> {
        self.sdk_key@
    }

    /// The tags that the client sends.
    pub closed spec fn spec_tags(&self) -> Option<Seq<char>> {
        text_of(self.tags)
    }

    /// The services that the client talks to.
    pub closed spec fn spec_endpoints(&self) -> ServiceEndpoints {
        self.endpoints
    }

    /// Where the client gets its flag data from.
    pub closed spec fn spec_data_source(&self) -> DataSourceView {
        self.data_source@
    }

    /// The event pipeline of the client, if it reports events.
    pub closed spec fn spec_events(&self) -> Option<ProcessorView> {
        match self.events {
            Some(processor) => Some(processor@),
            None => None,
        }
    }

    /// Whether batches of events are compressed.
    pub closed spec fn spec_compress_events(&self) -> bool {
        self.compress_events
    }

    /// Sets a client up as the harness asks, at the time `now`
    /// (milliseconds). The harness supplies the connector, so the data source
    /// uses it. Fails where the data source cannot be built: with streaming,
    /// where the address of the stream is no URI.
    pub fn new(create_instance_params: CreateInstanceParams, now: u64) -> (made: Result<
        Self,
        BuildError,
    >)
        ensures
            match made {
                Ok(entity) => {
                    &&& entity.spec_sdk_key() == create_instance_params.configuration.credential@
                    &&& entity.spec_tags() == tags_of(create_instance_params.configuration)
                    &&& entity.spec_endpoints().spec_streaming_base_url() == streaming_url_of(
                        create_instance_params.configuration,
                    )
                    &&& entity.spec_endpoints().spec_polling_base_url() == polling_url_of(
                        create_instance_params.configuration,
                    )
                    &&& entity.spec_endpoints().spec_events_base_url() == events_url_of(
                        create_instance_params.configuration,
                    )
                    &&& source_of(create_instance_params.configuration) == Ok::<
                        DataSourceView,
                        Seq<char>,
                    >(entity.spec_data_source())
                    &&& entity.spec_events() == match events_of(
                        create_instance_params.configuration,
                    ) {
                        Some(config) => Some(crate::events::processor::started(config, now)),
                        None => None,
                    }
                    &&& entity.spec_compress_events() == match create_instance_params.configuration.events {
                        Some(events) => events.enable_gzip == Some(true),
                        None => false,
                    }
                },
                Err(BuildError::InvalidConfig(message)) => source_of(
                    create_instance_params.configuration,
                ) == Err::<DataSourceView, Seq<char>>(message@),
            },
    {
        let Configuration { credential, tags, service_endpoints, streaming, polling, events } =
            create_instance_params.configuration;
        let tags = make_tags(tags);
        let (set_streaming, set_polling, set_events) = match service_endpoints {
            Some(endpoints) => (endpoints.streaming, endpoints.polling, endpoints.events),
            None => (None, None, None),
        };
        let mut stream_override: Option<String> = None;
        let mut polling_override: Option<String> = None;
        let mut streaming_builder: StreamingDataSourceBuilder<()> =
            StreamingDataSourceBuilder::new();
        let mut polling_builder: PollingDataSourceBuilder<()> = PollingDataSourceBuilder::new();
        let use_polling = streaming.is_none() && polling.is_some();
        match streaming {
            Some(streaming) => {
                stream_override = streaming.base_uri;
                if let Some(delay) = streaming.initial_retry_delay_ms {
                    streaming_builder.initial_reconnect_delay(Interval::from_millis(delay));
                }
            },
            None => {
                if let Some(polling) = polling {
                    polling_override = polling.base_uri;
                    if let Some(delay) = polling.poll_interval_ms {
                        polling_builder.poll_interval(Interval::from_millis(delay));
                    }
                }
            },
        }
        streaming_builder.https_connector(());
        polling_builder.https_connector(());
        let (events_override, processor_settings) = match events {
            Some(events) => {
                let config = EventsConfiguration {
                    capacity: match events.capacity {
                        Some(capacity) => capacity,
                        None => DEFAULT_EVENT_CAPACITY,
                    },
                    flush_interval: match events.flush_interval_ms {
                        Some(millis) => Interval::from_millis(millis),
                        None => Interval::from_secs(DEFAULT_FLUSH_INTERVAL_SECS),
                    },
                    context_keys_capacity: DEFAULT_CONTEXT_KEYS_CAPACITY,
                    context_keys_flush_interval: Interval::from_secs(
                        DEFAULT_CONTEXT_KEYS_FLUSH_INTERVAL_SECS,
                    ),
                    all_attributes_private: events.all_attributes_private,
                    private_attributes: match events.global_private_attributes {
                        Some(names) => names,
                        None => {
                            let names: Vec<String> = Vec::new();
                            assert(names_view(names@) =~= Seq::empty());
                            names
                        },
                    },
                    omit_anonymous_contexts: events.omit_anonymous_contexts,
                };
                let compress = match events.enable_gzip {
                    Some(enabled) => enabled,
                    None => false,
                };
                (events.base_uri, Some((config, compress)))
            },
            None => (None, None),
        };
        let endpoints = ServiceEndpoints::new(
            pick(stream_override, set_streaming, "https://stream.launchdarkly.com"),
            pick(polling_override, set_polling, "https://sdk.launchdarkly.com"),
            pick(events_override, set_events, "https://events.launchdarkly.com"),
        );
        let built = if use_polling {
            polling_builder.build(&endpoints, credential.as_str(), crate::events::event::copy_text(&tags))
        } else {
            streaming_builder.build(
                &endpoints,
                credential.as_str(),
                crate::events::event::copy_text(&tags),
            )
        };
        let data_source = match built {
            Ok(data_source) => data_source,
            Err(error) => {
                return Err(error);
            },
        };
        let (events, compress_events) = match processor_settings {
            Some((config, compress)) => (Some(EventProcessor::new(config, now)), compress),
            None => (None, false),
        };
        Ok(
            ClientEntity {
                sdk_key: credential,
                tags,
                endpoints,
                data_source,
                events,
                compress_events,
            },
        )
    }
}

/// What a command of the harness asks of the client. `V` is the type of flag
/// values.
pub enum CommandStep<V> {
    /// Evaluate the flag, hand what comes of it to [ClientEntity::evaluate],
    /// and answer with the response.
    Evaluate(EvaluateFlagParams<V>),
    /// Evaluate all flags for the context as `config` says, and answer with
    /// their state.
    EvaluateAll { context: Context, config: FlagDetailConfig },
    /// Nothing: the event went into the pipeline, and there is no answer.
    Reported,
    /// Deliver the batch, if there is one; there is no answer.
    Flushed(Option<Vec<OutputEvent>>),
    /// Answer with the context as JSON, or with the fault.
    ContextBuilt(Result<BuiltContext, String>),
    /// Answer with the JSON, or with the fault.
    ContextConverted(Result<String, String>),
    /// Answer with the secure mode hash of the context.
    SecureModeHash(Context),
    /// Ask the migration flag for its stage, and answer with it.
    MigrationVariation(MigrationVariationParams),
    /// Run the migration operation, and answer with
    /// [migration_operation_response] of what it came to.
    MigrationOperation(MigrationOperationParams),
}

/// The custom event that the harness asks to report: with a number, the data
/// is there too and is `null` where the harness gave none.
pub open spec fn custom_of(params: CustomEventParams) -> CustomView {
    CustomView {
        key: params.event_key@,
        data: match params.metric_value {
            Some(_) => match params.data {
                Some(data) => Some(data@),
                None => Some("null"@),
            },
            None => text_of(params.data),
        },
        metric_value: text_of(params.metric_value),
    }
}

/// What the harness is told where a command comes without its parameters, or
/// `None` where `command` is no command.
pub open spec fn missing_params_message(command: Seq<char>) -> Option<Seq<char>> {
    if command == "evaluate"@ {
        Some("Evaluate params should be set"@)
    } else if command == "evaluateAll"@ {
        Some("Evaluate all params should be set"@)
    } else if command == "customEvent"@ {
        Some("Custom params should be set"@)
    } else if command == "identifyEvent"@ {
        Some("Identify params should be set"@)
    } else if command == "flushEvents"@ {
        None
    } else if command == "contextBuild"@ {
        Some("ContextBuild params should be set"@)
    } else if command == "contextConvert"@ {
        Some("ContextConvert params should be set"@)
    } else if command == "secureModeHash"@ {
        Some("secureModeHash params should be set"@)
    } else if command == "migrationVariation"@ {
        Some("migrationVariation params should be set"@)
    } else if command == "migrationOperation"@ {
        Some("migrationOperation params should be set"@)
    } else {
        None
    }
}

/// Whether `command` is a command of the harness.
pub open spec fn known_command(command: Seq<char>) -> bool {
    command == "flushEvents"@ || missing_params_message(command) is Some
}

/// Whether the parameters of the command that `params` names are there.
pub open spec fn has_params<V>(params: CommandParams<V>) -> bool {
    let command = params.command@;
    if command == "evaluate"@ {
        params.evaluate is Some
    } else if command == "evaluateAll"@ {
        params.evaluate_all is Some
    } else if command == "customEvent"@ {
        params.custom_event is Some
    } else if command == "identifyEvent"@ {
        params.identify_event is Some
    } else if command == "flushEvents"@ {
        true
    } else if command == "contextBuild"@ {
        params.context_build is Some
    } else if command == "contextConvert"@ {
        params.context_convert is Some
    } else if command == "secureModeHash"@ {
        params.secure_mode_hash is Some
    } else if command == "migrationVariation"@ {
        params.migration_variation is Some
    } else if command == "migrationOperation"@ {
        params.migration_operation is Some
    } else {
        false
    }
}

/// What the harness is told where a command cannot be taken up: that its
/// parameters are missing, or that there is no such command.
pub open spec fn refusal<V>(params: CommandParams<V>) -> Seq<char> {
    match missing_params_message(params.command@) {
        Some(message) => message,
        None => "Invalid command requested: "@ + params.command@,
    }
}

/// The event pipeline after the command `params` at the time `now`: a custom
/// event or an identification goes in, a flush takes out what waits, and no
/// other command touches the pipeline.
pub open spec fn pipeline_after<V>(
    pipeline: Option<ProcessorView>,
    params: CommandParams<V>,
    now: u64,
) -> Option<ProcessorView> {
    let command = params.command@;
    match pipeline {
        None => None,
        Some(processor) => if command == "evaluate"@ || command == "evaluateAll"@ {
            Some(processor)
        } else if command == "customEvent"@ {
            match params.custom_event {
                Some(custom) => Some(
                    processor.submit(
                        InputEventView {
                            creation_date: now,
                            context: custom.context@,
                            payload: InputPayloadView::Custom(custom_of(custom)),
                        },
                    ),
                ),
                None => Some(processor),
            }
        } else if command == "identifyEvent"@ {
            match params.identify_event {
                Some(identify) => Some(
                    processor.submit(
                        InputEventView {
                            creation_date: now,
                            context: identify.context@,
                            payload: InputPayloadView::Identify,
                        },
                    ),
                ),
                None => Some(processor),
            }
        } else if command == "flushEvents"@ {
            Some(processor.flush().0)
        } else {
            Some(processor)
        },
    }
}

/// What the harness gets back for a migration operation: the payload that the
/// operation gave, `success` where it gave none, and the words of the failure
/// where it failed.
pub fn migration_operation_response(result: Result<Option<String>, String>) -> (response: String)
    ensures
        response@ == match result {
            Ok(Some(payload)) => payload@,
            Ok(None) => "success"@,
            Err(failure) => failure@,
        },
{
    match result {
        Ok(Some(payload)) => payload,
        Ok(None) => "success".to_owned(),
        Err(failure) => failure,
    }
}

/// What a call to an endpoint of the harness came to: the body where the
/// status says success, else a failure that names the status.
pub fn send_payload_result(success: bool, status: &str, body: String) -> (result: Result<
    String,
    String,
>)
    ensures
        match result {
            Ok(text) => success && text@ == body@,
            Err(failure) => !success && failure@ == "requested failed with status code "@
                + status@,
        },
{
    if success {
        Ok(body)
    } else {
        Err(join("requested failed with status code ", status))
    }
}

/// The kind of value that the harness names by `value_type`.
pub fn value_kind(value_type: &str) -> (kind: ValueKind)
    ensures
        kind == value_kind_of(value_type@),
{
    if same_text(value_type, "bool") {
        ValueKind::Bool
    } else if same_text(value_type, "int") {
        ValueKind::Int
    } else if same_text(value_type, "double") {
        ValueKind::Double
    } else if same_text(value_type, "string") {
        ValueKind::String
    } else {
        ValueKind::Json
    }
}

impl ClientEntity {
    /// Builds the context that `single` describes. Fails with the words of
    /// the evaluation crate where it finds fault with the kind or the key.
    pub fn context_build_single(single: ContextParam) -> (built: Result<Context, String>)
        ensures
            match built {
                Ok(context) => built_single(single) == Ok::<ContextView, Seq<char>>(context@),
                Err(fault) => built_single(single) == Err::<ContextView, Seq<char>>(fault@),
            },
    {
        let ContextParam { kind, key, name, anonymous, private, custom } = single;
        let kind = match kind {
            Some(kind) => kind,
            None => "user".to_owned(),
        };
        if let Some(fault) = check_single_context(kind.as_str(), key.as_str()) {
            return Err(fault);
        }
        let mut attributes: Vec<Attribute> = Vec::new();
        if let Some(name) = name {
            attributes.push(Attribute { name: "name".to_owned(), value: name });
        }
        let ghost head = attributes_view(attributes@);
        assert(head =~= match single.name {
            Some(name) => seq![("name"@, name@)],
            None => Seq::empty(),
        });
        if let Some(mut custom) = custom {
            let ghost tail = attributes_view(custom@);
            attributes.append(&mut custom);
            assert(attributes_view(attributes@) =~= head + tail);
        } else {
            assert(attributes_view(attributes@) =~= head + Seq::empty());
        }
        let private_attributes = match private {
            Some(private) => private,
            None => {
                let none: Vec<String> = Vec::new();
                assert(names_view(none@) =~= Seq::empty());
                none
            },
        };
        Ok(
            Context {
                kind,
                key,
                anonymous: match anonymous {
                    Some(anonymous) => anonymous,
                    None => false,
                },
                attributes,
                private_attributes,
            },
        )
    }

    /// Builds the context of several kinds that `multi` describes.
    fn context_build_multi(multi: Vec<ContextParam>) -> (built: Result<BuiltContext, String>)
        ensures
            match built {
                Ok(context) => built_multi(multi@) == Ok::<BuiltContextView, Seq<char>>(context@),
                Err(fault) => built_multi(multi@) == Err::<BuiltContextView, Seq<char>>(fault@),
            },
    {
        let ghost all = multi@;
        let mut rest = multi;
        let mut builder = multi_builder_new();
        let mut contexts: Vec<Context> = Vec::new();
        while rest.len() > 0
            invariant
                all == multi@,
                contexts@.len() + rest@.len() == all.len(),
                rest@ =~= all.skip(contexts@.len() as int),
                forall|i: int|
                    0 <= i < contexts@.len() ==> single_context_fault(
                        kind_of(#[trigger] all[i]),
                        all[i].key@,
                    ) is None,
                contexts@.map_values(|context: Context| context@) =~= contexts_of(
                    all.take(contexts@.len() as int),
                ),
                multi_kinds(builder) =~= kinds_of(all.take(contexts@.len() as int)),
            decreases rest@.len(),
        {
            let ghost done = contexts@.len() as int;
            let single = rest.remove(0);
            assert(single == all[done]);
            let ghost kind = kind_of(single);
            let ghost key = single.key@;
            let ghost built_before = contexts@.map_values(|context: Context| context@);
            let ghost kinds_before = multi_kinds(builder);
            proof {
                lemma_first_fault_skips(all, done);
                assert(all.skip(done)[0] == all[done]);
            }
            match Self::context_build_single(single) {
                Ok(context) => {
                    assert(single_context_fault(kind, key) is None);
                    assert(context@ == context_of(all[done]));
                    multi_builder_add(&mut builder, context.kind.as_str(), context.key.as_str());
                    contexts.push(context);
                    assert(all.take(done + 1) =~= all.take(done).push(all[done]));
                    assert(rest@ =~= all.skip(done + 1));
                    assert(contexts@.map_values(|context: Context| context@)
                        =~= built_before.push(context_of(all[done])));
                    assert(contexts_of(all.take(done + 1)) =~= contexts_of(all.take(done)).push(
                        context_of(all[done]),
                    ));
                    assert(kinds_of(all.take(done + 1)) =~= kinds_of(all.take(done)).push(
                        kind_of(all[done]),
                    ));
                },
                Err(fault) => {
                    assert(single_context_fault(kind_of(all[done]), all[done].key@) == Some(
                        fault@,
                    ));
                    assert(first_fault(all.skip(done)) == 0);
                    assert(first_fault(all) == done);
                    return Err(fault);
                },
            }
        }
        proof {
            lemma_first_fault_skips(all, all.len() as int);
            assert(all.skip(all.len() as int).len() == 0);
            assert(all.take(all.len() as int) =~= all);
        }
        match check_multi_context(&builder) {
            Some(fault) => Err(fault),
            None => {
                if contexts.len() == 1 {
                    let ghost views = contexts@.map_values(|context: Context| context@);
                    let context = contexts.remove(0);
                    assert(context@ == views[0]);
                    Ok(BuiltContext::Single(context))
                } else {
                    Ok(BuiltContext::Multi(contexts))
                }
            },
        }
    }

    /// Builds the context that `params` describe: the single one if there is
    /// one, else the one of several kinds.
    pub fn build_context_from_params(params: ContextBuildParams) -> (built: Result<
        BuiltContext,
        String,
    >)
        ensures
            match built {
                Ok(context) => built_context(params) == Ok::<BuiltContextView, Seq<char>>(
                    context@,
                ),
                Err(fault) => built_context(params) == Err::<BuiltContextView, Seq<char>>(fault@),
            },
    {
        let ContextBuildParams { single, multi } = params;
        match single {
            Some(single) => match Self::context_build_single(single) {
                Ok(context) => Ok(BuiltContext::Single(context)),
                Err(fault) => Err(fault),
            },
            None => match multi {
                Some(multi) => Self::context_build_multi(multi),
                None => Err(
                    "either 'single' or 'multi' required for contextBuild command".to_owned(),
                ),
            },
        }
    }

    /// Builds the context that `params` describe.
    pub fn context_build(params: ContextBuildParams) -> (built: Result<BuiltContext, String>)
        ensures
            match built {
                Ok(context) => built_context(params) == Ok::<BuiltContextView, Seq<char>>(
                    context@,
                ),
                Err(fault) => built_context(params) == Err::<BuiltContextView, Seq<char>>(fault@),
            },
    {
        Self::build_context_from_params(params)
    }

    /// Reads a context from the JSON of `params` and writes it out again, as
    /// the evaluation crate does both. Whether that succeeds is settled by
    /// the input; the text that comes back may differ from run to run in the
    /// order of the attributes.
    pub fn context_convert(params: ContextConvertParams) -> (converted: Result<String, String>)
        ensures
            converted is Ok <==> context_converts(params.input@),
    {
        convert_context(params.input.as_str())
    }

    /// The evaluation that `params` ask of the client.
    pub fn variation_call<V>(params: &EvaluateFlagParams<V>) -> (call: VariationCall)
        ensures
            call == (VariationCall {
                kind: value_kind_of(params.value_type@),
                detail: params.detail,
            }),
    {
        VariationCall { kind: value_kind(params.value_type.as_str()), detail: params.detail }
    }

    /// The response to an evaluation that gave `evaluated`: the value with
    /// its variation and reason where they came with it, and the value alone
    /// where they did not.
    pub fn evaluate<V, R>(evaluated: Evaluated<V, R>) -> (response: EvaluateFlagResponse<V, R>)
        ensures
            response == match evaluated {
                Evaluated::Detail(detail) => EvaluateFlagResponse {
                    value: detail.value,
                    variation_index: detail.variation_index,
                    reason: Some(detail.reason),
                },
                Evaluated::Value(value) => EvaluateFlagResponse {
                    value: Some(value),
                    variation_index: None,
                    reason: None,
                },
            },
    {
        match evaluated {
            Evaluated::Detail(detail) => EvaluateFlagResponse {
                value: detail.value,
                variation_index: detail.variation_index,
                reason: Some(detail.reason),
            },
            Evaluated::Value(value) => EvaluateFlagResponse {
                value: Some(value),
                variation_index: None,
                reason: None,
            },
        }
    }

    /// What the state of all flags is to hold, as `params` ask.
    pub fn evaluate_all(params: &EvaluateAllFlagsParams) -> (config: FlagDetailConfig)
        ensures
            config == (FlagDetailConfig {
                client_side_only: params.client_side_only,
                with_reasons: params.with_reasons,
                details_only_for_tracked_flags: params.details_only_for_tracked_flags,
            }),
    {
        let mut config = FlagDetailConfig::new();
        if params.with_reasons {
            config.with_reasons();
        }
        if params.client_side_only {
            config.client_side_only();
        }
        if params.details_only_for_tracked_flags {
            config.details_only_for_tracked_flags();
        }
        config
    }

    /// Reports the custom event of `params` at `now`, if the client reports
    /// events.
    fn custom_event(&mut self, params: CustomEventParams, now: u64)
        ensures
            final(self).spec_events() == match old(self).spec_events() {
                Some(processor) => Some(
                    processor.submit(
                        InputEventView {
                            creation_date: now,
                            context: params.context@,
                            payload: InputPayloadView::Custom(custom_of(params)),
                        },
                    ),
                ),
                None => None,
            },
            final(self).spec_unchanged_but_events(*old(self)),
    {
        let CustomEventParams { event_key, context, data, metric_value } = params;
        let data = match (&metric_value, data) {
            (Some(_), None) => Some("null".to_owned()),
            (_, data) => data,
        };
        if let Some(processor) = &mut self.events {
            processor.track_custom(context, event_key, data, metric_value, now);
        }
    }

    /// Everything but the event pipeline is as in `before`.
    pub closed spec fn spec_unchanged_but_events(&self, before: ClientEntity) -> bool {
        &&& self.sdk_key == before.sdk_key
        &&& self.tags == before.tags
        &&& self.endpoints == before.endpoints
        &&& self.data_source == before.data_source
        &&& self.compress_events == before.compress_events
    }

    /// Takes up one command of the harness at the time `now`. Commands about
    /// events are carried out on the pipeline; for every other command the
    /// step says what is asked of the client. A command that comes without
    /// its parameters, or that is no command, is refused.
    pub fn do_command<V>(&mut self, command: CommandParams<V>, now: u64) -> (step: Result<
        CommandStep<V>,
        String,
    >)
        ensures
            final(self).spec_unchanged_but_events(*old(self)),
            final(self).spec_events() == pipeline_after(old(self).spec_events(), command, now),
            has_params(command) <==> step is Ok,
            match step {
                Err(message) => message@ == refusal(command),
                Ok(CommandStep::Evaluate(params)) => command.command@ == "evaluate"@
                    && command.evaluate == Some(params),
                Ok(CommandStep::EvaluateAll { context, config }) => {
                    &&& command.command@ == "evaluateAll"@
                    &&& command.evaluate_all matches Some(params)
                    &&& context == params.context
                    &&& config == (FlagDetailConfig {
                        client_side_only: params.client_side_only,
                        with_reasons: params.with_reasons,
                        details_only_for_tracked_flags: params.details_only_for_tracked_flags,
                    })
                },
                Ok(CommandStep::Reported) => command.command@ == "customEvent"@ || command.command@
                    == "identifyEvent"@,
                Ok(CommandStep::Flushed(batch)) => command.command@ == "flushEvents"@ && match (
                    batch,
                    old(self).spec_events(),
                ) {
                    (Some(batch), Some(processor)) => processor.flush().1 == Some(
                        crate::events::event::batch_view(batch@),
                    ),
                    (None, Some(processor)) => processor.flush().1 is None,
                    (Some(_), None) => false,
                    (None, None) => true,
                },
                Ok(CommandStep::ContextBuilt(built)) => {
                    &&& command.command@ == "contextBuild"@
                    &&& command.context_build matches Some(params)
                    &&& match built {
                        Ok(context) => built_context(params) == Ok::<BuiltContextView, Seq<char>>(
                            context@,
                        ),
                        Err(fault) => built_context(params) == Err::<BuiltContextView, Seq<char>>(
                            fault@,
                        ),
                    }
                },
                Ok(CommandStep::ContextConverted(converted)) => {
                    &&& command.command@ == "contextConvert"@
                    &&& command.context_convert matches Some(params)
                    &&& converted is Ok <==> context_converts(params.input@)
                },
                Ok(CommandStep::SecureModeHash(context)) => {
                    &&& command.command@ == "secureModeHash"@
                    &&& command.secure_mode_hash matches Some(params)
                    &&& context == params.context
                },
                Ok(CommandStep::MigrationVariation(params)) => command.command@
                    == "migrationVariation"@ && command.migration_variation == Some(params),
                Ok(CommandStep::MigrationOperation(params)) => command.command@
                    == "migrationOperation"@ && command.migration_operation == Some(params),
            },
    {
        let name = command.command.as_str();
        if same_text(name, "evaluate") {
            match command.evaluate {
                Some(params) => Ok(CommandStep::Evaluate(params)),
                None => Err("Evaluate params should be set".to_owned()),
            }
        } else if same_text(name, "evaluateAll") {
            match command.evaluate_all {
                Some(params) => {
                    let config = Self::evaluate_all(&params);
                    Ok(CommandStep::EvaluateAll { context: params.context, config })
                },
                None => Err("Evaluate all params should be set".to_owned()),
            }
        } else if same_text(name, "customEvent") {
            match command.custom_event {
                Some(params) => {
                    self.custom_event(params, now);
                    Ok(CommandStep::Reported)
                },
                None => Err("Custom params should be set".to_owned()),
            }
        } else if same_text(name, "identifyEvent") {
            match command.identify_event {
                Some(params) => {
                    if let Some(processor) = &mut self.events {
                        processor.track_identify(params.context, now);
                    }
                    Ok(CommandStep::Reported)
                },
                None => Err("Identify params should be set".to_owned()),
            }
        } else if same_text(name, "flushEvents") {
            let batch = match &mut self.events {
                Some(processor) => processor.flush(),
                None => None,
            };
            Ok(CommandStep::Flushed(batch))
        } else if same_text(name, "contextBuild") {
            match command.context_build {
                Some(params) => Ok(CommandStep::ContextBuilt(Self::context_build(params))),
                None => Err("ContextBuild params should be set".to_owned()),
            }
        } else if same_text(name, "contextConvert") {
            match command.context_convert {
                Some(params) => Ok(CommandStep::ContextConverted(Self::context_convert(params))),
                None => Err("ContextConvert params should be set".to_owned()),
            }
        } else if same_text(name, "secureModeHash") {
            match command.secure_mode_hash {
                Some(params) => Ok(CommandStep::SecureModeHash(params.context)),
                None => Err("secureModeHash params should be set".to_owned()),
            }
        } else if same_text(name, "migrationVariation") {
            match command.migration_variation {
                Some(params) => Ok(CommandStep::MigrationVariation(params)),
                None => Err("migrationVariation params should be set".to_owned()),
            }
        } else if same_text(name, "migrationOperation") {
            match command.migration_operation {
                Some(params) => Ok(CommandStep::MigrationOperation(params)),
                None => Err("migrationOperation params should be set".to_owned()),
            }
        } else {
            Err(join("Invalid command requested: ", name))
        }
    }

    /// The credential of the client.
    pub fn sdk_key(&self) -> (key: &str)
        ensures
            key@ == self.spec_sdk_key(),
    {
        self.sdk_key.as_str()
    }

    /// The tags that the client sends.
    pub fn tags(&self) -> (tags: &Option<String>)
        ensures
            text_of(*tags) == self.spec_tags(),
    {
        &self.tags
    }

    /// The services that the client talks to.
    pub fn endpoints(&self) -> (endpoints: &ServiceEndpoints)
        ensures
            *endpoints == self.spec_endpoints(),
    {
        &self.endpoints
    }

    /// Where the client gets its flag data from.
    pub fn data_source(&self) -> (source: &DataSource)
        ensures
            source@ == self.spec_data_source(),
    {
        &self.data_source
    }

    /// Whether the client reports events.
    pub fn reports_events(&self) -> (reports: bool)
        ensures
            reports == self.spec_events() is Some,
    {
        self.events.is_some()
    }

    /// Whether batches of events are compressed.
    pub fn compress_events(&self) -> (compress: bool)
        ensures
            compress == self.spec_compress_events(),
    {
        self.compress_events
    }

    /// Reports one evaluation of a flag, made for `context` at `now`, if the
    /// client reports events.
    pub fn track_feature_event(
        &mut self,
        context: Context,
        request: crate::events::event::FeatureRequest,
        now: u64,
    )
        ensures
            final(self).spec_unchanged_but_events(*old(self)),
            final(self).spec_events() == match old(self).spec_events() {
                Some(processor) => Some(
                    processor.submit(
                        InputEventView {
                            creation_date: now,
                            context: context@,
                            payload: InputPayloadView::FeatureRequest(request@),
                        },
                    ),
                ),
                None => None,
            },
    {
        if let Some(processor) = &mut self.events {
            processor.track_feature_event(context, request, now);
        }
    }

    /// Reports what a migration operation did for `context` at `now`, if the
    /// client reports events.
    pub fn track_migration_op(
        &mut self,
        context: Context,
        op: crate::events::event::MigrationOp,
        now: u64,
    )
        ensures
            final(self).spec_unchanged_but_events(*old(self)),
            final(self).spec_events() == match old(self).spec_events() {
                Some(processor) => Some(
                    processor.submit(
                        InputEventView {
                            creation_date: now,
                            context: context@,
                            payload: InputPayloadView::Migration(op@),
                        },
                    ),
                ),
                None => None,
            },
    {
        if let Some(processor) = &mut self.events {
            processor.track_migration_op(context, op, now);
        }
    }

    /// Tells the event pipeline of the client, if it has one, that the clock
    /// shows `now`, and returns the batch to deliver if a flush was due.
    pub fn tick(&mut self, now: u64) -> (batch: Option<Vec<OutputEvent>>)
        ensures
            final(self).spec_unchanged_but_events(*old(self)),
            final(self).spec_events() == match old(self).spec_events() {
                Some(processor) => Some(processor.tick(now).0),
                None => None,
            },
            match (batch, old(self).spec_events()) {
                (Some(batch), Some(processor)) => processor.tick(now).1 == Some(
                    crate::events::event::batch_view(batch@),
                ),
                (None, Some(processor)) => processor.tick(now).1 is None,
                (Some(_), None) => false,
                (None, None) => true,
            },
    {
        match &mut self.events {
            Some(processor) => processor.tick(now),
            None => None,
        }
    }

    /// Tells the event pipeline of the client, if it has one, what a delivery
    /// came to.
    pub fn delivered(&mut self, result: &crate::events::sender::EventSenderResult)
        ensures
            final(self).spec_unchanged_but_events(*old(self)),
            final(self).spec_events() == match old(self).spec_events() {
                Some(processor) => Some(processor.delivered(*result)),
                None => None,
            },
    {
        if let Some(processor) = &mut self.events {
            processor.delivered(result);
        }
    }

    /// Closes the event pipeline of the client, if it has one, and returns the
    /// last batch to deliver.
    pub fn close(&mut self) -> (batch: Option<Vec<OutputEvent>>)
        ensures
            final(self).spec_unchanged_but_events(*old(self)),
            final(self).spec_events() == match old(self).spec_events() {
                Some(processor) => Some(processor.close().0),
                None => None,
            },
            match (batch, old(self).spec_events()) {
                (Some(batch), Some(processor)) => processor.close().1 == Some(
                    crate::events::event::batch_view(batch@),
                ),
                (None, Some(processor)) => processor.close().1 is None,
                (Some(_), None) => false,
                (None, None) => true,
            },
    {
        match &mut self.events {
            Some(processor) => processor.close(),
            None => None,
        }
    }
}

} // verus!
