//! The analytics event pipeline: what is recorded for each evaluation,
//! identification and custom event, how it is batched, and how a batch is
//! delivered.

use crate::events::context::names_view;
use crate::interval::Interval;
use vstd::prelude::*;

pub mod context;
pub mod context_keys;
pub mod dispatcher;
pub mod event;
pub mod processor;
pub mod sender;
pub mod summarizer;

verus! {

/// How the pipeline is set up. It is fixed when the pipeline starts.
pub struct EventsConfiguration {
    /// How many events a batch holds at most.
    pub capacity: usize,
    /// The time between two flushes.
    pub flush_interval: Interval,
    /// How many contexts are remembered as seen at most; zero counts as one.
    pub context_keys_capacity: usize,
    /// For how long a context that was seen counts as known.
    pub context_keys_flush_interval: Interval,
    /// Whether every attribute of every context is private.
    pub all_attributes_private: bool,
    /// The names of the attributes that are private in every context.
    pub private_attributes: Vec<String>,
    /// Whether the contexts of anonymous users are left out.
    pub omit_anonymous_contexts: bool,
}

/// An [EventsConfiguration] as plain mathematical values.
pub struct EventsConfigurationView {
    pub capacity: nat,
    pub flush_interval: Interval,
    pub context_keys_capacity: nat,
    pub context_keys_flush_interval: Interval,
    pub all_attributes_private: bool,
    pub private_attributes: Seq<Seq<char>>,
    pub omit_anonymous_contexts: bool,
}

impl View for EventsConfiguration {
    type V = EventsConfigurationView;

    open spec fn view(&self) -> EventsConfigurationView {
        EventsConfigurationView {
            capacity: self.capacity as nat,
            flush_interval: self.flush_interval,
            context_keys_capacity: self.context_keys_capacity as nat,
            context_keys_flush_interval: self.context_keys_flush_interval,
            all_attributes_private: self.all_attributes_private,
            private_attributes: names_view(self.private_attributes@),
            omit_anonymous_contexts: self.omit_anonymous_contexts,
        }
    }
}

/// A small configuration to try the pipeline with: batches of five events,
/// five remembered contexts that count as known for a hundred seconds, and
/// nothing private or left out.
pub fn create_events_configuration(flush_interval: Interval) -> (config: EventsConfiguration)
    ensures
        config@.capacity == 5,
        config@.flush_interval == flush_interval,
        config@.context_keys_capacity == 5,
        config@.context_keys_flush_interval.total_nanos() == 100 * 1_000_000_000,
        !config@.all_attributes_private,
        config@.private_attributes == Seq::<Seq<char>>::empty(),
        !config@.omit_anonymous_contexts,
{
    let config = EventsConfiguration {
        capacity: 5,
        flush_interval,
        context_keys_capacity: 5,
        context_keys_flush_interval: Interval::from_secs(100),
        all_attributes_private: false,
        private_attributes: Vec::new(),
        omit_anonymous_contexts: false,
    };
    assert(config@.private_attributes =~= Seq::<Seq<char>>::empty());
    config
}

} // verus!
