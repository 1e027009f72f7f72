//! The base addresses of the services that the SDK talks to.

use vstd::prelude::*;

verus! {

/// Where flag data is streamed from, polled from, and where events go.
pub struct ServiceEndpoints {
    streaming_base_url: String,
    polling_base_url: String,
    events_base_url: String,
}

impl ServiceEndpoints {
    /// The base address of the streaming service.
    pub closed spec fn spec_streaming_base_url(&self) -> Seq<char> {
        self.streaming_base_url@
    }

    /// The base address of the polling service.
    pub closed spec fn spec_polling_base_url(&self) -> Seq<char> {
        self.polling_base_url@
    }

    /// The base address of the events service.
    pub closed spec fn spec_events_base_url(&self) -> Seq<char> {
        self.events_base_url@
    }

    /// Endpoints with the three base addresses given.
    pub fn new(streaming_base_url: String, polling_base_url: String, events_base_url: String) -> (endpoints: Self)
        ensures
            endpoints.spec_streaming_base_url() == streaming_base_url@,
            endpoints.spec_polling_base_url() == polling_base_url@,
            endpoints.spec_events_base_url() == events_base_url@,
    {
        ServiceEndpoints { streaming_base_url, polling_base_url, events_base_url }
    }

    /// The base address of the streaming service.
    pub fn streaming_base_url(&self) -> (url: &str)
        ensures
            url@ == self.spec_streaming_base_url(),
    {
        self.streaming_base_url.as_str()
    }

    /// The base address of the polling service.
    pub fn polling_base_url(&self) -> (url: &str)
        ensures
            url@ == self.spec_polling_base_url(),
    {
        self.polling_base_url.as_str()
    }

    /// The base address of the events service.
    pub fn events_base_url(&self) -> (url: &str)
        ensures
            url@ == self.spec_events_base_url(),
    {
        self.events_base_url.as_str()
    }
}

} // verus!
