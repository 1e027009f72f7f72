//! What a data source is made of: where it connects, with which key, and how
//! often.

use crate::events::event::{copy_text, text_of};
use crate::interval::Interval;
use vstd::prelude::*;
use vstd::string::StringExecFns;

verus! {

/// What is wrong with `text` as a URI, in the words of the parser, or `None`
/// where `text` is a URI.
pub uninterp spec fn uri_fault(text: Seq<char>) -> Option<Seq<char>>;

/// Calls `hyper::Uri`'s `from_str`, which parses `text` as a URI. Returns
/// `None` where that gives a URI, and the `Debug` text of its error where it
/// does not. The parser reads nothing but `text`, so the result is named
/// after it.
#[verifier::external_body]
fn check_uri(text: &str) -> (fault: Option<String>)
    ensures
        text_of(fault) == uri_fault(text@),
{
    match text.parse::<hyper::Uri>() {
        Ok(_) => None,
        Err(error) => Some(format!("{:?}", error)),
    }
}

/// With which connector a data source reaches the service.
#[derive(Clone, Copy, Debug, PartialEq, Eq, Structural)]
pub enum ConnectorChoice {
    /// The connector that was given to the builder.
    Supplied,
    /// A connector of the SDK's own that trusts the certificates of the
    /// machine.
    NativeRoots,
}

/// A source of flag data, as far as it is settled before any connection is
/// made.
pub enum DataSource {
    /// Flag data arrives over a connection that stays open.
    Streaming {
        stream_url: String,
        sdk_key: String,
        initial_reconnect_delay: Interval,
        tags: Option<String>,
        connector: ConnectorChoice,
    },
    /// Flag data is asked for at regular intervals.
    Polling {
        base_url: String,
        sdk_key: String,
        poll_interval: Interval,
        tags: Option<String>,
        connector: ConnectorChoice,
    },
    /// No flag data arrives.
    Null,
}

/// A [DataSource] as plain mathematical values.
pub enum DataSourceView {
    Streaming {
        stream_url: Seq<char>,
        sdk_key: Seq<char>,
        initial_reconnect_delay: Interval,
        tags: Option<Seq<char>>,
        connector: ConnectorChoice,
    },
    Polling {
        base_url: Seq<char>,
        sdk_key: Seq<char>,
        poll_interval: Interval,
        tags: Option<Seq<char>>,
        connector: ConnectorChoice,
    },
    Null,
}

impl View for DataSource {
    type V = DataSourceView;

    open spec fn view(&self) -> DataSourceView {
        match self {
            DataSource::Streaming {
                stream_url,
                sdk_key,
                initial_reconnect_delay,
                tags,
                connector,
            } => DataSourceView::Streaming {
                stream_url: stream_url@,
                sdk_key: sdk_key@,
                initial_reconnect_delay: *initial_reconnect_delay,
                tags: text_of(*tags),
                connector: *connector,
            },
            DataSource::Polling {
                base_url,
                sdk_key,
                poll_interval,
                tags,
                connector,
            } => DataSourceView::Polling {
                base_url: base_url@,
                sdk_key: sdk_key@,
                poll_interval: *poll_interval,
                tags: text_of(*tags),
                connector: *connector,
            },
            DataSource::Null => DataSourceView::Null,
        }
    }
}

/// The address that a stream is read from under `base_url`.
pub open spec fn stream_url_of(base_url: Seq<char>) -> Seq<char> {
    base_url + "/all"@
}

/// The streaming data source under `base_url`, or what is wrong with the
/// address of its stream.
pub open spec fn streaming_source(
    base_url: Seq<char>,
    sdk_key: Seq<char>,
    initial_reconnect_delay: Interval,
    tags: Option<Seq<char>>,
    connector: ConnectorChoice,
) -> Result<DataSourceView, Seq<char>> {
    match uri_fault(stream_url_of(base_url)) {
        Some(fault) => Err(fault),
        None => Ok(
            DataSourceView::Streaming {
                stream_url: stream_url_of(base_url),
                sdk_key,
                initial_reconnect_delay,
                tags,
                connector,
            },
        ),
    }
}

/// Turns the parser's verdict on the address of a stream into the data source
/// or the fault.
pub fn streaming_from_verdict(
    fault: Option<String>,
    stream_url: String,
    sdk_key: &str,
    initial_reconnect_delay: Interval,
    tags: &Option<String>,
    connector: ConnectorChoice,
) -> (made: Result<DataSource, String>)
    ensures
        match made {
            Ok(source) => fault is None && source@ == (DataSourceView::Streaming {
                stream_url: stream_url@,
                sdk_key: sdk_key@,
                initial_reconnect_delay,
                tags: text_of(*tags),
                connector,
            }),
            Err(text) => fault is Some && text@ == fault->Some_0@,
        },
{
    match fault {
        Some(fault) => Err(fault),
        None => Ok(
            DataSource::Streaming {
                stream_url,
                sdk_key: sdk_key.to_owned(),
                initial_reconnect_delay,
                tags: copy_text(tags),
                connector,
            },
        ),
    }
}

impl DataSource {
    /// A streaming data source that reads the stream under `base_url`. Fails
    /// with the parser's words where the address of the stream is no URI.
    pub fn streaming(
        base_url: &str,
        sdk_key: &str,
        initial_reconnect_delay: Interval,
        tags: &Option<String>,
        connector: ConnectorChoice,
    ) -> (made: Result<DataSource, String>)
        ensures
            match made {
                Ok(source) => Ok::<DataSourceView, Seq<char>>(source@) == streaming_source(
                    base_url@,
                    sdk_key@,
                    initial_reconnect_delay,
                    text_of(*tags),
                    connector,
                ),
                Err(fault) => Err::<DataSourceView, Seq<char>>(fault@) == streaming_source(
                    base_url@,
                    sdk_key@,
                    initial_reconnect_delay,
                    text_of(*tags),
                    connector,
                ),
            },
    {
        let mut stream_url = base_url.to_owned();
        stream_url.append("/all");
        let fault = check_uri(stream_url.as_str());
        streaming_from_verdict(
            fault,
            stream_url,
            sdk_key,
            initial_reconnect_delay,
            tags,
            connector,
        )
    }

    /// A polling data source that asks under `base_url`.
    pub fn polling(
        base_url: &str,
        sdk_key: &str,
        poll_interval: Interval,
        tags: Option<String>,
        connector: ConnectorChoice,
    ) -> (source: DataSource)
        ensures
            source@ == (DataSourceView::Polling {
                base_url: base_url@,
                sdk_key: sdk_key@,
                poll_interval,
                tags: text_of(tags),
                connector,
            }),
    {
        DataSource::Polling {
            base_url: base_url.to_owned(),
            sdk_key: sdk_key.to_owned(),
            poll_interval,
            tags,
            connector,
        }
    }

    /// A second data source that holds the same values.
    pub fn duplicate(&self) -> (copy: Self)
        ensures
            copy@ == self@,
    {
        match self {
            DataSource::Streaming {
                stream_url,
                sdk_key,
                initial_reconnect_delay,
                tags,
                connector,
            } => DataSource::Streaming {
                stream_url: stream_url.clone(),
                sdk_key: sdk_key.clone(),
                initial_reconnect_delay: *initial_reconnect_delay,
                tags: copy_text(tags),
                connector: *connector,
            },
            DataSource::Polling {
                base_url,
                sdk_key,
                poll_interval,
                tags,
                connector,
            } => DataSource::Polling {
                base_url: base_url.clone(),
                sdk_key: sdk_key.clone(),
                poll_interval: *poll_interval,
                tags: copy_text(tags),
                connector: *connector,
            },
            DataSource::Null => DataSource::Null,
        }
    }
}

} // verus!
