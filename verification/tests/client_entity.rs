use launchdarkly_server_sdk::client_entity::{
    migration_operation_response, send_payload_result, value_kind, BuiltContext, ClientEntity,
    CommandStep, ValueKind, VariationCall,
};
use launchdarkly_server_sdk::command_params::{
    CommandParams, Configuration, ContextBuildParams, ContextConvertParams, ContextParam,
    CreateInstanceParams, CustomEventParams, Detail, Evaluated, EvaluateAllFlagsParams,
    EvaluateFlagParams, EventParams, FlagDetailConfig, IdentifyEventParams,
    MigrationOperationParams, MigrationVariationParams, PollingParams, SecureModeHashParams,
    ServiceEndpointsParams, StreamingParams, Tags,
};
use launchdarkly_server_sdk::data_source::{ConnectorChoice, DataSource};
use launchdarkly_server_sdk::data_source_builders::BuildError;
use launchdarkly_server_sdk::events::context::{Attribute, Context};
use launchdarkly_server_sdk::events::event::{EventBody, OutputEvent};
use launchdarkly_server_sdk::interval::Interval;
use launchdarkly_server_sdk::migration::{Operation, Stage};
use launchdarkly_server_sdk::migrator::ExecutionOrder;

fn text(s: &str) -> String {
    s.to_string()
}

fn configuration() -> Configuration {
    Configuration {
        credential: text("sdk-key"),
        tags: None,
        service_endpoints: None,
        streaming: None,
        polling: None,
        events: None,
    }
}

fn events() -> EventParams {
    EventParams {
        base_uri: None,
        capacity: None,
        all_attributes_private: false,
        enable_gzip: None,
        flush_interval_ms: None,
        global_private_attributes: None,
        omit_anonymous_contexts: false,
    }
}

fn entity(configuration: Configuration) -> ClientEntity {
    match ClientEntity::new(CreateInstanceParams { configuration }, 0) {
        Ok(entity) => entity,
        Err(_) => panic!("the client should have been made"),
    }
}

fn command(name: &str) -> CommandParams<bool> {
    CommandParams {
        command: text(name),
        evaluate: None,
        evaluate_all: None,
        custom_event: None,
        identify_event: None,
        context_build: None,
        context_convert: None,
        secure_mode_hash: None,
        migration_variation: None,
        migration_operation: None,
    }
}

fn single(kind: Option<&str>, key: &str) -> ContextParam {
    ContextParam {
        kind: kind.map(text),
        key: text(key),
        name: None,
        anonymous: None,
        private: None,
        custom: None,
    }
}

fn refused(step: Result<CommandStep<bool>, String>) -> String {
    match step {
        Err(message) => message,
        Ok(_) => panic!("expected the command to be refused"),
    }
}

#[test]
fn client_streams_from_the_usual_address_by_default() {
    let entity = entity(configuration());
    assert_eq!(entity.sdk_key(), "sdk-key");
    assert_eq!(*entity.tags(), None);
    assert_eq!(entity.endpoints().streaming_base_url(), "https://stream.launchdarkly.com");
    assert_eq!(entity.endpoints().polling_base_url(), "https://sdk.launchdarkly.com");
    assert_eq!(entity.endpoints().events_base_url(), "https://events.launchdarkly.com");
    assert!(!entity.reports_events());
    assert!(!entity.compress_events());
    match entity.data_source() {
        DataSource::Streaming { stream_url, sdk_key, initial_reconnect_delay, tags, connector } => {
            assert_eq!(stream_url, "https://stream.launchdarkly.com/all");
            assert_eq!(sdk_key, "sdk-key");
            assert_eq!(*initial_reconnect_delay, Interval::from_secs(1));
            assert_eq!(*tags, None);
            assert_eq!(*connector, ConnectorChoice::Supplied);
        }
        _ => panic!("expected a streaming data source"),
    }
}

#[test]
fn client_takes_addresses_and_delays_from_the_harness() {
    let mut configuration = configuration();
    configuration.tags = Some(Tags {
        application_id: Some(text("app")),
        application_version: Some(text("1.2")),
    });
    configuration.service_endpoints = Some(ServiceEndpointsParams {
        streaming: Some(text("http://set-stream")),
        polling: Some(text("http://set-polling")),
        events: Some(text("http://set-events")),
    });
    configuration.streaming = Some(StreamingParams {
        base_uri: Some(text("http://harness/stream")),
        initial_retry_delay_ms: Some(250),
    });
    configuration.polling = Some(PollingParams {
        base_uri: Some(text("http://harness/polling")),
        poll_interval_ms: Some(1),
    });
    let mut event_params = events();
    event_params.base_uri = Some(text("http://harness/events"));
    event_params.enable_gzip = Some(true);
    configuration.events = Some(event_params);
    let entity = entity(configuration);
    assert_eq!(*entity.tags(), Some(text("application-id/app application-version/1.2")));
    assert_eq!(entity.endpoints().streaming_base_url(), "http://harness/stream");
    // streaming wins, so what is set for polling is not looked at
    assert_eq!(entity.endpoints().polling_base_url(), "http://set-polling");
    assert_eq!(entity.endpoints().events_base_url(), "http://harness/events");
    assert!(entity.reports_events());
    assert!(entity.compress_events());
    match entity.data_source() {
        DataSource::Streaming { stream_url, initial_reconnect_delay, tags, .. } => {
            assert_eq!(stream_url, "http://harness/stream/all");
            assert_eq!(*initial_reconnect_delay, Interval::from_millis(250));
            assert_eq!(*tags, Some(text("application-id/app application-version/1.2")));
        }
        _ => panic!("expected a streaming data source"),
    }
}

#[test]
fn client_polls_where_only_polling_is_asked_for() {
    let mut configuration = configuration();
    configuration.tags = Some(Tags { application_id: None, application_version: Some(text("7")) });
    configuration.polling = Some(PollingParams {
        base_uri: Some(text("http://harness/polling")),
        poll_interval_ms: Some(1_000),
    });
    let entity = entity(configuration);
    assert_eq!(*entity.tags(), Some(text("application-version/7")));
    match entity.data_source() {
        DataSource::Polling { base_url, sdk_key, poll_interval, connector, .. } => {
            assert_eq!(base_url, "http://harness/polling");
            assert_eq!(sdk_key, "sdk-key");
            // below the minimum, so the minimum it is
            assert_eq!(*poll_interval, Interval::from_secs(30));
            assert_eq!(*connector, ConnectorChoice::Supplied);
        }
        _ => panic!("expected a polling data source"),
    }
}

#[test]
fn client_with_a_stream_address_that_is_no_uri_is_not_made() {
    let mut configuration = configuration();
    configuration.streaming = Some(StreamingParams {
        base_uri: Some(text("http://bad host")),
        initial_retry_delay_ms: None,
    });
    match ClientEntity::new(CreateInstanceParams { configuration }, 0) {
        Err(BuildError::InvalidConfig(message)) => {
            assert!(message.starts_with("invalid stream_base_url: "));
        }
        _ => panic!("expected the client not to be made"),
    }
}

#[test]
fn commands_without_parameters_are_refused() {
    let mut entity = entity(configuration());
    let expected = [
        ("evaluate", "Evaluate params should be set"),
        ("evaluateAll", "Evaluate all params should be set"),
        ("customEvent", "Custom params should be set"),
        ("identifyEvent", "Identify params should be set"),
        ("contextBuild", "ContextBuild params should be set"),
        ("contextConvert", "ContextConvert params should be set"),
        ("secureModeHash", "secureModeHash params should be set"),
        ("migrationVariation", "migrationVariation params should be set"),
        ("migrationOperation", "migrationOperation params should be set"),
    ];
    for (name, message) in expected {
        assert_eq!(refused(entity.do_command(command(name), 0)), message);
    }
}

#[test]
fn unknown_command_is_refused_by_name() {
    let mut entity = entity(configuration());
    assert_eq!(
        refused(entity.do_command(command("selfDestruct"), 0)),
        "Invalid command requested: selfDestruct"
    );
    assert_eq!(refused(entity.do_command(command(""), 0)), "Invalid command requested: ");
}

#[test]
fn evaluate_commands_are_handed_on() {
    let mut entity = entity(configuration());
    let mut evaluate = command("evaluate");
    evaluate.evaluate = Some(EvaluateFlagParams {
        flag_key: text("flag"),
        context: Context::new(text("user"), text("alice")),
        value_type: text("bool"),
        default_value: true,
        detail: true,
    });
    match entity.do_command(evaluate, 0) {
        Ok(CommandStep::Evaluate(params)) => {
            assert_eq!(params.flag_key, "flag");
            assert!(params.default_value);
            assert_eq!(
                ClientEntity::variation_call(&params),
                VariationCall { kind: ValueKind::Bool, detail: true }
            );
        }
        _ => panic!("expected an evaluation"),
    }
    let mut evaluate_all = command("evaluateAll");
    evaluate_all.evaluate_all = Some(EvaluateAllFlagsParams {
        context: Context::new(text("user"), text("bob")),
        with_reasons: true,
        client_side_only: false,
        details_only_for_tracked_flags: true,
    });
    match entity.do_command(evaluate_all, 0) {
        Ok(CommandStep::EvaluateAll { context, config }) => {
            assert_eq!(context.key, "bob");
            assert_eq!(
                config,
                FlagDetailConfig {
                    client_side_only: false,
                    with_reasons: true,
                    details_only_for_tracked_flags: true,
                }
            );
        }
        _ => panic!("expected an evaluation of all flags"),
    }
}

#[test]
fn value_kinds_are_named_by_the_harness() {
    assert_eq!(value_kind("bool"), ValueKind::Bool);
    assert_eq!(value_kind("int"), ValueKind::Int);
    assert_eq!(value_kind("double"), ValueKind::Double);
    assert_eq!(value_kind("string"), ValueKind::String);
    assert_eq!(value_kind("any"), ValueKind::Json);
    assert_eq!(value_kind(""), ValueKind::Json);
    assert_eq!(value_kind("Bool"), ValueKind::Json);
}

#[test]
fn evaluation_response_follows_what_was_evaluated() {
    let detailed = ClientEntity::evaluate(Evaluated::Detail(Detail {
        value: Some(5i64),
        variation_index: Some(2),
        reason: "FALLTHROUGH",
    }));
    assert_eq!(detailed.value, Some(5));
    assert_eq!(detailed.variation_index, Some(2));
    assert_eq!(detailed.reason, Some("FALLTHROUGH"));

    let missing = ClientEntity::evaluate(Evaluated::<i64, &str>::Detail(Detail {
        value: None,
        variation_index: None,
        reason: "ERROR",
    }));
    assert_eq!(missing.value, None);
    assert_eq!(missing.reason, Some("ERROR"));

    let plain = ClientEntity::evaluate(Evaluated::<i64, &str>::Value(9));
    assert_eq!(plain.value, Some(9));
    assert_eq!(plain.variation_index, None);
    assert_eq!(plain.reason, None);
}

#[test]
fn evaluate_all_configuration() {
    let params = EvaluateAllFlagsParams {
        context: Context::new(text("user"), text("bob")),
        with_reasons: false,
        client_side_only: true,
        details_only_for_tracked_flags: false,
    };
    assert_eq!(
        ClientEntity::evaluate_all(&params),
        FlagDetailConfig {
            client_side_only: true,
            with_reasons: false,
            details_only_for_tracked_flags: false,
        }
    );
    assert_eq!(
        FlagDetailConfig::new(),
        FlagDetailConfig {
            client_side_only: false,
            with_reasons: false,
            details_only_for_tracked_flags: false,
        }
    );
}

#[test]
fn event_commands_go_through_the_pipeline() {
    let mut configuration = configuration();
    configuration.events = Some(events());
    let mut entity = entity(configuration);

    let mut with_metric = command("customEvent");
    with_metric.custom_event = Some(CustomEventParams {
        event_key: text("purchase"),
        context: Context::new(text("user"), text("alice")),
        data: None,
        metric_value: Some(text("1.5")),
    });
    assert!(matches!(entity.do_command(with_metric, 10), Ok(CommandStep::Reported)));

    let mut with_data = command("customEvent");
    with_data.custom_event = Some(CustomEventParams {
        event_key: text("viewed"),
        context: Context::new(text("user"), text("alice")),
        data: Some(text("{\"a\":1}")),
        metric_value: None,
    });
    assert!(matches!(entity.do_command(with_data, 11), Ok(CommandStep::Reported)));

    let mut bare = command("customEvent");
    bare.custom_event = Some(CustomEventParams {
        event_key: text("clicked"),
        context: Context::new(text("user"), text("alice")),
        data: None,
        metric_value: None,
    });
    assert!(matches!(entity.do_command(bare, 12), Ok(CommandStep::Reported)));

    let mut identify = command("identifyEvent");
    identify.identify_event =
        Some(IdentifyEventParams { context: Context::new(text("user"), text("bob")) });
    assert!(matches!(entity.do_command(identify, 13), Ok(CommandStep::Reported)));

    let batch = match entity.do_command(command("flushEvents"), 14) {
        Ok(CommandStep::Flushed(Some(batch))) => batch,
        _ => panic!("expected a batch"),
    };
    let customs: Vec<(String, Option<String>, Option<String>)> = batch
        .iter()
        .filter_map(|event| match event {
            OutputEvent::Event { body: EventBody::Custom(custom), .. } => {
                Some((custom.key.clone(), custom.data.clone(), custom.metric_value.clone()))
            }
            _ => None,
        })
        .collect();
    assert_eq!(
        customs,
        vec![
            (text("purchase"), Some(text("null")), Some(text("1.5"))),
            (text("viewed"), Some(text("{\"a\":1}")), None),
            (text("clicked"), None, None),
        ]
    );
    assert_eq!(batch.len(), 5);
    assert!(matches!(&batch[3], OutputEvent::Event { body: EventBody::Index, .. }));
    assert!(matches!(&batch[4], OutputEvent::Event { body: EventBody::Identify, .. }));
    assert!(matches!(
        entity.do_command(command("flushEvents"), 15),
        Ok(CommandStep::Flushed(None))
    ));
}

#[test]
fn event_commands_without_a_pipeline_do_nothing() {
    let mut entity = entity(configuration());
    let mut custom = command("customEvent");
    custom.custom_event = Some(CustomEventParams {
        event_key: text("purchase"),
        context: Context::new(text("user"), text("alice")),
        data: None,
        metric_value: None,
    });
    assert!(matches!(entity.do_command(custom, 1), Ok(CommandStep::Reported)));
    assert!(matches!(
        entity.do_command(command("flushEvents"), 2),
        Ok(CommandStep::Flushed(None))
    ));
    assert!(entity.tick(100_000).is_none());
    assert!(entity.close().is_none());
}

#[test]
fn entity_ticks_and_closes_its_pipeline() {
    let mut configuration = configuration();
    let mut event_params = events();
    event_params.flush_interval_ms = Some(50);
    event_params.capacity = Some(2);
    configuration.events = Some(event_params);
    let mut entity = entity(configuration);
    for i in 0..3 {
        let mut custom = command("customEvent");
        custom.custom_event = Some(CustomEventParams {
            event_key: text("purchase"),
            context: Context::new(text("user"), text("alice")),
            data: None,
            metric_value: None,
        });
        assert!(entity.do_command(custom, i).is_ok());
    }
    assert!(entity.tick(49).is_none());
    assert_eq!(entity.tick(50).expect("a batch").len(), 2);
    let mut custom = command("customEvent");
    custom.custom_event = Some(CustomEventParams {
        event_key: text("last"),
        context: Context::new(text("user"), text("alice")),
        data: None,
        metric_value: None,
    });
    assert!(entity.do_command(custom, 60).is_ok());
    assert_eq!(entity.close().expect("the last batch").len(), 1);
    assert!(entity.close().is_none());
}

#[test]
fn other_commands_are_handed_on() {
    let mut entity = entity(configuration());
    let mut hash = command("secureModeHash");
    hash.secure_mode_hash =
        Some(SecureModeHashParams { context: Context::new(text("user"), text("alice")) });
    match entity.do_command(hash, 0) {
        Ok(CommandStep::SecureModeHash(context)) => assert_eq!(context.key, "alice"),
        _ => panic!("expected a hash to be asked for"),
    }
    let mut variation = command("migrationVariation");
    variation.migration_variation = Some(MigrationVariationParams {
        key: text("migration"),
        context: Context::new(text("user"), text("alice")),
        default_stage: Stage::Live,
    });
    match entity.do_command(variation, 0) {
        Ok(CommandStep::MigrationVariation(params)) => {
            assert_eq!(params.key, "migration");
            assert_eq!(params.default_stage, Stage::Live);
        }
        _ => panic!("expected a migration variation"),
    }
    let mut operation = command("migrationOperation");
    operation.migration_operation = Some(MigrationOperationParams {
        key: text("migration"),
        context: Context::new(text("user"), text("alice")),
        default_stage: Stage::OldOnly,
        operation: Operation::Write,
        read_execution_order: ExecutionOrder::Serial,
        track_latency: true,
        track_errors: true,
        track_consistency: false,
        old_endpoint: text("http://old"),
        new_endpoint: text("http://new"),
        payload: Some(text("payload")),
    });
    match entity.do_command(operation, 0) {
        Ok(CommandStep::MigrationOperation(params)) => {
            assert_eq!(params.operation, Operation::Write);
            assert_eq!(params.old_endpoint, "http://old");
            assert_eq!(params.payload, Some(text("payload")));
        }
        _ => panic!("expected a migration operation"),
    }
}

#[test]
fn single_context_is_built_with_defaults() {
    let context = ClientEntity::context_build_single(single(None, "alice")).expect("a context");
    assert_eq!(context.kind, "user");
    assert_eq!(context.key, "alice");
    assert!(!context.anonymous);
    assert!(context.attributes.is_empty());
    assert!(context.private_attributes.is_empty());
}

#[test]
fn single_context_is_built_as_described() {
    let context = ClientEntity::context_build_single(ContextParam {
        kind: Some(text("org")),
        key: text("acme"),
        name: Some(text("\"Acme\"")),
        anonymous: Some(true),
        private: Some(vec![text("plan")]),
        custom: Some(vec![Attribute { name: text("plan"), value: text("\"pro\"") }]),
    })
    .expect("a context");
    assert_eq!(context.kind, "org");
    assert_eq!(context.key, "acme");
    assert!(context.anonymous);
    assert_eq!(context.attributes.len(), 2);
    assert_eq!(context.attributes[0].name, "name");
    assert_eq!(context.attributes[0].value, "\"Acme\"");
    assert_eq!(context.attributes[1].name, "plan");
    assert_eq!(context.attributes[1].value, "\"pro\"");
    assert_eq!(context.private_attributes, vec![text("plan")]);
}

#[test]
fn single_context_with_a_bad_kind_or_key_is_refused() {
    let fault = |kind: Option<&str>, key: &str| -> String {
        match ClientEntity::context_build_single(single(kind, key)) {
            Err(fault) => fault,
            Ok(_) => panic!("expected the context to be refused"),
        }
    };
    assert_eq!(fault(Some(""), "a"), "context kind cannot be empty");
    assert_eq!(fault(Some("kind"), "a"), "context kind cannot be 'kind'");
    assert_eq!(fault(Some("multi"), "a"), "context kind cannot be 'multi'");
    assert_eq!(fault(Some("no spaces"), "a"), "context kind contains disallowed characters");
    assert_eq!(fault(Some("org"), ""), "key cannot be empty");
    assert_eq!(fault(None, ""), "key cannot be empty");
    assert!(ClientEntity::context_build_single(single(Some("a-b.c_D9"), "k")).is_ok());
}

#[test]
fn context_build_needs_single_or_multi() {
    match ClientEntity::context_build(ContextBuildParams { single: None, multi: None }) {
        Err(fault) => {
            assert_eq!(fault, "either 'single' or 'multi' required for contextBuild command")
        }
        Ok(_) => panic!("expected a refusal"),
    }
}

#[test]
fn context_build_prefers_single() {
    let built = ClientEntity::build_context_from_params(ContextBuildParams {
        single: Some(single(None, "alice")),
        multi: Some(vec![single(Some("org"), "acme")]),
    });
    match built {
        Ok(BuiltContext::Single(context)) => assert_eq!(context.key, "alice"),
        _ => panic!("expected the single context"),
    }
}

#[test]
fn multi_context_is_built_of_its_parts() {
    let built = ClientEntity::context_build(ContextBuildParams {
        single: None,
        multi: Some(vec![single(Some("org"), "acme"), single(None, "alice")]),
    });
    match built {
        Ok(BuiltContext::Multi(contexts)) => {
            assert_eq!(contexts.len(), 2);
            assert_eq!(contexts[0].kind, "org");
            assert_eq!(contexts[0].key, "acme");
            assert_eq!(contexts[1].kind, "user");
            assert_eq!(contexts[1].key, "alice");
        }
        _ => panic!("expected a context of two kinds"),
    }
}

#[test]
fn multi_context_of_one_part_is_that_part() {
    let built = ClientEntity::context_build(ContextBuildParams {
        single: None,
        multi: Some(vec![single(Some("org"), "acme")]),
    });
    match built {
        Ok(BuiltContext::Single(context)) => {
            assert_eq!(context.kind, "org");
            assert_eq!(context.key, "acme");
        }
        _ => panic!("expected the one context"),
    }
}

#[test]
fn multi_context_faults() {
    let fault = |multi: Vec<ContextParam>| -> String {
        match ClientEntity::context_build(ContextBuildParams { single: None, multi: Some(multi) }) {
            Err(fault) => fault,
            Ok(_) => panic!("expected the context to be refused"),
        }
    };
    assert_eq!(fault(vec![]), "multi-kind context must contain at least one nested context");
    assert_eq!(
        fault(vec![single(Some("org"), "a"), single(None, "b"), single(Some("org"), "c")]),
        "multi-kind context cannot have same kind more than once"
    );
    // the first part at fault is the one reported
    assert_eq!(
        fault(vec![single(Some("org"), "a"), single(Some("kind"), "b"), single(Some("x"), "")]),
        "context kind cannot be 'kind'"
    );
}

#[test]
fn context_build_command_answers_with_the_context() {
    let mut entity = entity(configuration());
    let mut build = command("contextBuild");
    build.context_build =
        Some(ContextBuildParams { single: Some(single(Some("org"), "acme")), multi: None });
    match entity.do_command(build, 0) {
        Ok(CommandStep::ContextBuilt(Ok(BuiltContext::Single(context)))) => {
            assert_eq!(context.kind, "org")
        }
        _ => panic!("expected a context"),
    }
    let mut bad = command("contextBuild");
    bad.context_build = Some(ContextBuildParams { single: Some(single(None, "")), multi: None });
    match entity.do_command(bad, 0) {
        Ok(CommandStep::ContextBuilt(Err(fault))) => assert_eq!(fault, "key cannot be empty"),
        _ => panic!("expected a fault"),
    }
}

#[test]
fn context_convert_round_trips_json() {
    let converted = ClientEntity::context_convert(ContextConvertParams {
        input: text("{\"kind\":\"org\",\"key\":\"acme\",\"plan\":\"pro\"}"),
    })
    .expect("the context as JSON");
    let value: serde_json::Value = serde_json::from_str(&converted).expect("JSON");
    assert_eq!(value["kind"], "org");
    assert_eq!(value["key"], "acme");
    assert_eq!(value["plan"], "pro");
}

#[test]
fn context_convert_writes_old_users_as_contexts() {
    let input = "{\"key\":\"alice\",\"custom\":{\"plan\":\"pro\"},\"privateAttributeNames\":[\"plan\"]}";
    let converted = ClientEntity::context_convert(ContextConvertParams { input: text(input) })
        .expect("the context as JSON");
    assert_ne!(converted, input);
    let value: serde_json::Value = serde_json::from_str(&converted).expect("JSON");
    assert_eq!(value["kind"], "user");
    assert_eq!(value["key"], "alice");
    assert_eq!(value["plan"], "pro");
    assert!(value.get("custom").is_none());
    assert_eq!(value["_meta"]["privateAttributes"][0], "plan");
}

#[test]
fn context_convert_reports_what_is_wrong() {
    assert!(ClientEntity::context_convert(ContextConvertParams { input: text("{") }).is_err());
    assert!(ClientEntity::context_convert(ContextConvertParams {
        input: text("{\"kind\":\"org\",\"key\":\"\"}")
    })
    .is_err());
    let mut entity = entity(configuration());
    let mut convert = command("contextConvert");
    convert.context_convert = Some(ContextConvertParams { input: text("not json") });
    assert!(matches!(
        entity.do_command(convert, 0),
        Ok(CommandStep::ContextConverted(Err(_)))
    ));
}

#[test]
fn migration_operation_response_texts() {
    assert_eq!(migration_operation_response(Ok(Some(text("body")))), "body");
    assert_eq!(migration_operation_response(Ok(None)), "success");
    assert_eq!(migration_operation_response(Err(text("failed"))), "failed");
}

#[test]
fn send_payload_results() {
    assert_eq!(send_payload_result(true, "200 OK", text("body")), Ok(text("body")));
    assert_eq!(
        send_payload_result(false, "500 Internal Server Error", text("body")),
        Err(text("requested failed with status code 500 Internal Server Error"))
    );
}
