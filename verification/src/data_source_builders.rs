//! Builders that configure how the SDK receives feature flag data.

use crate::data_source::{
    streaming_source, ConnectorChoice, DataSource, DataSourceView,
};
use crate::events::event::text_of;
use crate::interval::Interval;
use crate::service_endpoints::ServiceEndpoints;
use vstd::prelude::*;
use vstd::string::StringExecFns;

verus! {

/// Error type used to represent failures when building a data source.
#[non_exhaustive]
#[derive(Debug)]
pub enum BuildError {
    /// Error used when a configuration setting is invalid. This typically
    /// indicates an invalid URL.
    InvalidConfig(String),
}

/// Whether the SDK brings a connector of its own, which trusts the
/// certificates of the machine. Where it does not, a builder needs a connector
/// to build.
pub const NATIVE_ROOTS_CONNECTOR: bool = true;

/// The connector that a data source uses where the builder holds `connector`:
/// the one supplied, else the SDK's own, else none.
pub open spec fn connector_for<C>(connector: Option<C>) -> Option<ConnectorChoice> {
    match connector {
        Some(_) => Some(ConnectorChoice::Supplied),
        None => if NATIVE_ROOTS_CONNECTOR {
            Some(ConnectorChoice::NativeRoots)
        } else {
            None
        },
    }
}

/// The connector that a data source uses where the builder holds `connector`.
fn choose_connector<C>(connector: &Option<C>) -> (choice: Option<ConnectorChoice>)
    ensures
        choice == connector_for(*connector),
{
    match connector {
        Some(_) => Some(ConnectorChoice::Supplied),
        None => if NATIVE_ROOTS_CONNECTOR {
            Some(ConnectorChoice::NativeRoots)
        } else {
            None
        },
    }
}

/// What a build says where it has no connector.
pub open spec fn missing_connector_message() -> Seq<char> {
    "https connector required when rustls is disabled"@
}

/// What a streaming build says where the address of the stream is no URI,
/// before the words of the parser.
pub open spec fn invalid_stream_url_prefix() -> Seq<char> {
    "invalid stream_base_url: "@
}

/// Trait which allows creation of data sources. Should be implemented by data
/// source builder types.
pub trait DataSourceFactory {
    /// Whether the factory holds all that a build needs.
    spec fn ready(&self) -> bool;

    /// What a build gives: the data source, or the words of the failure.
    spec fn built(&self, endpoints: ServiceEndpoints, sdk_key: Seq<char>, tags: Option<Seq<char>>)
        -> Result<DataSourceView, Seq<char>>;

    /// Settles the data source for the given services, key and tags.
    fn build(&self, endpoints: &ServiceEndpoints, sdk_key: &str, tags: Option<String>) -> (made:
        Result<DataSource, BuildError>)
        requires
            self.ready(),
        ensures
            match made {
                Ok(source) => self.built(*endpoints, sdk_key@, text_of(tags)) == Ok::<
                    DataSourceView,
                    Seq<char>,
                >(source@),
                Err(BuildError::InvalidConfig(message)) => self.built(
                    *endpoints,
                    sdk_key@,
                    text_of(tags),
                ) == Err::<DataSourceView, Seq<char>>(message@),
            },
    ;
}

/// Seconds a streaming connection waits before its first reconnect attempt,
/// unless configured otherwise.
pub const DEFAULT_INITIAL_RECONNECT_DELAY_SECS: u64 = 1;

/// Seconds between two polls at the least; also the default.
pub const MINIMUM_POLL_INTERVAL_SECS: u64 = 30;

/// Contains methods for configuring the streaming data source.
///
/// By default, the SDK uses a streaming connection to receive feature flag
/// data. To customize the connection, create a builder with
/// [StreamingDataSourceBuilder::new] and change its properties with the
/// methods of this type.
#[derive(Clone)]
pub struct StreamingDataSourceBuilder<C> {
    initial_reconnect_delay: Interval,
    connector: Option<C>,
}

impl<C> StreamingDataSourceBuilder<C> {
    /// The delay before the first reconnect attempt.
    pub closed spec fn spec_reconnect_delay(&self) -> Interval {
        self.initial_reconnect_delay
    }

    /// The connector that connections are made with, if one was supplied.
    pub closed spec fn spec_connector(&self) -> Option<C> {
        self.connector
    }

    /// Create a new instance of the [StreamingDataSourceBuilder] with default values.
    pub fn new() -> (builder: Self)
        ensures
            builder.spec_reconnect_delay() == Interval::of_nanos(1_000_000_000),
            builder.spec_reconnect_delay().total_nanos() == 1_000_000_000,
            builder.spec_connector() is None,
    {
        Self {
            initial_reconnect_delay: Interval::from_secs(DEFAULT_INITIAL_RECONNECT_DELAY_SECS),
            connector: None,
        }
    }

    /// Sets the initial reconnect delay for the streaming connection.
    pub fn initial_reconnect_delay(&mut self, duration: Interval) -> (builder: &mut Self)
        ensures
            builder.spec_reconnect_delay() == duration,
            builder.spec_connector() == old(self).spec_connector(),
            *final(self) == *final(builder),
    {
        self.initial_reconnect_delay = duration;
        self
    }

    /// Sets the connector for the event source client to use. This allows for
    /// re-use of a connector between multiple client instances.
    pub fn https_connector(&mut self, connector: C) -> (builder: &mut Self)
        ensures
            builder.spec_connector() == Some(connector),
            builder.spec_reconnect_delay() == old(self).spec_reconnect_delay(),
            *final(self) == *final(builder),
    {
        self.connector = Some(connector);
        self
    }

    /// The delay before the first reconnect attempt.
    #[verifier::when_used_as_spec(spec_reconnect_delay)]
    pub fn reconnect_delay(&self) -> (delay: Interval)
        ensures
            delay == self.spec_reconnect_delay(),
    {
        self.initial_reconnect_delay
    }

    /// The connector that connections are made with, if one was supplied.
    pub fn connector(&self) -> (connector: Option<&C>)
        ensures
            connector == match self.spec_connector() {
                Some(c) => Some(&c),
                None => None,
            },
    {
        self.connector.as_ref()
    }
}

impl<C> DataSourceFactory for StreamingDataSourceBuilder<C> {
    open spec fn ready(&self) -> bool {
        true
    }

    open spec fn built(
        &self,
        endpoints: ServiceEndpoints,
        sdk_key: Seq<char>,
        tags: Option<Seq<char>>,
    ) -> Result<DataSourceView, Seq<char>> {
        match connector_for(self.spec_connector()) {
            None => Err(missing_connector_message()),
            Some(connector) => match streaming_source(
                endpoints.spec_streaming_base_url(),
                sdk_key,
                self.spec_reconnect_delay(),
                tags,
                connector,
            ) {
                Ok(source) => Ok(source),
                Err(fault) => Err(invalid_stream_url_prefix() + fault),
            },
        }
    }

    fn build(&self, endpoints: &ServiceEndpoints, sdk_key: &str, tags: Option<String>) -> (made:
        Result<DataSource, BuildError>) {
        match choose_connector(&self.connector) {
            None => Err(
                BuildError::InvalidConfig(
                    "https connector required when rustls is disabled".to_owned(),
                ),
            ),
            Some(connector) => match DataSource::streaming(
                endpoints.streaming_base_url(),
                sdk_key,
                self.initial_reconnect_delay,
                &tags,
                connector,
            ) {
                Ok(source) => Ok(source),
                Err(fault) => {
                    let mut message = "invalid stream_base_url: ".to_owned();
                    message.append(fault.as_str());
                    Err(BuildError::InvalidConfig(message))
                },
            },
        }
    }
}

/// Contains no configuration: a client built with it never connects and serves
/// only the defaults passed to each evaluation.
#[derive(Clone)]
pub struct NullDataSourceBuilder {}

impl DataSourceFactory for NullDataSourceBuilder {
    open spec fn ready(&self) -> bool {
        true
    }

    open spec fn built(
        &self,
        endpoints: ServiceEndpoints,
        sdk_key: Seq<char>,
        tags: Option<Seq<char>>,
    ) -> Result<DataSourceView, Seq<char>> {
        Ok(DataSourceView::Null)
    }

    fn build(&self, endpoints: &ServiceEndpoints, sdk_key: &str, tags: Option<String>) -> (made:
        Result<DataSource, BuildError>) {
        Ok(DataSource::Null)
    }
}

impl NullDataSourceBuilder {
    /// Create a new instance of the [NullDataSourceBuilder].
    pub fn new() -> (builder: Self)
        ensures
            builder == (NullDataSourceBuilder {  }),
    {
        Self {  }
    }
}

/// Contains methods for configuring the polling data source.
///
/// Polling is not the default behavior; by default, the SDK uses a streaming
/// connection to receive feature flag data. In polling mode, the SDK instead
/// makes a new HTTP request at regular intervals.
#[derive(Clone)]
pub struct PollingDataSourceBuilder<C> {
    poll_interval: Interval,
    connector: Option<C>,
}

impl<C> PollingDataSourceBuilder<C> {
    /// The time between two polls.
    pub closed spec fn spec_interval(&self) -> Interval {
        self.poll_interval
    }

    /// The connector that requests are made with, if one was supplied.
    pub closed spec fn spec_connector(&self) -> Option<C> {
        self.connector
    }

    /// Create a new instance of the [PollingDataSourceBuilder] with default values.
    pub fn new() -> (builder: Self)
        ensures
            builder.spec_interval() == Interval::of_nanos(30_000_000_000),
            builder.spec_interval().total_nanos() == 30_000_000_000,
            builder.spec_connector() is None,
    {
        Self {
            poll_interval: Interval::from_secs(MINIMUM_POLL_INTERVAL_SECS),
            connector: None,
        }
    }

    /// Sets the poll interval for the polling connection.
    ///
    /// The default and minimum value is 30 seconds. Values less than this will
    /// be set to the default.
    pub fn poll_interval(&mut self, poll_interval: Interval) -> (builder: &mut Self)
        ensures
            builder.spec_interval() == if poll_interval.total_nanos() < 30_000_000_000 {
                Interval::of_nanos(30_000_000_000)
            } else {
                poll_interval
            },
            builder.spec_interval().total_nanos() >= 30_000_000_000,
            builder.spec_connector() == old(self).spec_connector(),
            *final(self) == *final(builder),
    {
        self.poll_interval = poll_interval.at_least(
            Interval::from_secs(MINIMUM_POLL_INTERVAL_SECS),
        );
        self
    }

    /// Sets the connector for the polling client to use. This allows for
    /// re-use of a connector between multiple client instances.
    pub fn https_connector(&mut self, connector: C) -> (builder: &mut Self)
        ensures
            builder.spec_connector() == Some(connector),
            builder.spec_interval() == old(self).spec_interval(),
            *final(self) == *final(builder),
    {
        self.connector = Some(connector);
        self
    }

    /// The time between two polls.
    #[verifier::when_used_as_spec(spec_interval)]
    pub fn interval(&self) -> (interval: Interval)
        ensures
            interval == self.spec_interval(),
    {
        self.poll_interval
    }

    /// The connector that requests are made with, if one was supplied.
    pub fn connector(&self) -> (connector: Option<&C>)
        ensures
            connector == match self.spec_connector() {
                Some(c) => Some(&c),
                None => None,
            },
    {
        self.connector.as_ref()
    }
}

impl<C> DataSourceFactory for PollingDataSourceBuilder<C> {
    open spec fn ready(&self) -> bool {
        true
    }

    open spec fn built(
        &self,
        endpoints: ServiceEndpoints,
        sdk_key: Seq<char>,
        tags: Option<Seq<char>>,
    ) -> Result<DataSourceView, Seq<char>> {
        match connector_for(self.spec_connector()) {
            None => Err(missing_connector_message()),
            Some(connector) => Ok(
                DataSourceView::Polling {
                    base_url: endpoints.spec_polling_base_url(),
                    sdk_key,
                    poll_interval: self.spec_interval(),
                    tags,
                    connector,
                },
            ),
        }
    }

    fn build(&self, endpoints: &ServiceEndpoints, sdk_key: &str, tags: Option<String>) -> (made:
        Result<DataSource, BuildError>) {
        match choose_connector(&self.connector) {
            None => Err(
                BuildError::InvalidConfig(
                    "https connector required when rustls is disabled".to_owned(),
                ),
            ),
            Some(connector) => Ok(
                DataSource::polling(
                    endpoints.polling_base_url(),
                    sdk_key,
                    self.poll_interval,
                    tags,
                    connector,
                ),
            ),
        }
    }
}

/// For testing you can use this builder to inject a data source that was
/// prepared beforehand.
pub struct MockDataSourceBuilder {
    data_source: Option<DataSource>,
}

impl MockDataSourceBuilder {
    /// The data source that the builder hands out, if one was injected.
    pub closed spec fn spec_data_source(&self) -> Option<DataSource> {
        self.data_source
    }

    /// Create a builder that holds no data source yet.
    pub fn new() -> (builder: MockDataSourceBuilder)
        ensures
            builder.spec_data_source() is None,
    {
        MockDataSourceBuilder { data_source: None }
    }

    /// Injects the data source that the builder hands out.
    pub fn data_source(&mut self, data_source: DataSource) -> (builder: &mut MockDataSourceBuilder)
        ensures
            builder.spec_data_source() == Some(data_source),
            *final(self) == *final(builder),
    {
        self.data_source = Some(data_source);
        self
    }
}

impl DataSourceFactory for MockDataSourceBuilder {
    open spec fn ready(&self) -> bool {
        self.spec_data_source() is Some
    }

    open spec fn built(
        &self,
        endpoints: ServiceEndpoints,
        sdk_key: Seq<char>,
        tags: Option<Seq<char>>,
    ) -> Result<DataSourceView, Seq<char>> {
        Ok(self.spec_data_source()->Some_0@)
    }

    fn build(&self, endpoints: &ServiceEndpoints, sdk_key: &str, tags: Option<String>) -> (made:
        Result<DataSource, BuildError>) {
        match &self.data_source {
            Some(source) => Ok(source.duplicate()),
            None => vstd::pervasive::unreached(),
        }
    }
}

} // verus!
