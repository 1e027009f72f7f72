//! The life of the pipeline: when batches are made, what goes into them, and
//! how the pipeline ends.

use crate::events::context::{names_view, redacted, Context};
use crate::events::dispatcher::{DispatcherView, EventDispatcher, Pending, PendingView};
use crate::events::event::{
    batch_view, queued_view, Custom, FeatureRequest, InputEvent, InputEventView, InputPayload,
    OutputEvent, OutputEventView, QueuedEvent, QueuedEventView,
};
use crate::events::sender::EventSenderResult;
use crate::events::EventsConfiguration;
use vstd::prelude::*;

verus! {

/// The event that is delivered for `event`: the same event, with its context
/// written without what is private.
pub open spec fn output_of(event: QueuedEventView, all_private: bool, global: Seq<Seq<char>>)
    -> OutputEventView {
    OutputEventView::Event {
        creation_date: event.creation_date,
        context: redacted(event.context, all_private, global),
        body: event.body,
    }
}

/// The batch that is made of `pending`: the events that waited, in their
/// order, and behind them the summary if there is one.
pub open spec fn batch_of(pending: PendingView, all_private: bool, global: Seq<Seq<char>>) -> Seq<
    OutputEventView,
> {
    pending.events.map_values(|event: QueuedEventView| output_of(event, all_private, global))
        + match pending.summary {
        Some(summary) => seq![OutputEventView::Summary(summary)],
        None => Seq::empty(),
    }
}

/// `time` and `span` added, as far as 64 bits reach.
pub open spec fn later(time: u64, span: u64) -> u64 {
    if time + span > u64::MAX {
        u64::MAX
    } else {
        (time + span) as u64
    }
}

/// A processor as plain mathematical values.
pub struct ProcessorView {
    pub all_attributes_private: bool,
    pub private_attributes: Seq<Seq<char>>,
    /// Milliseconds between two flushes.
    pub flush_every: u64,
    /// Milliseconds between two purges of the cache of contexts.
    pub purge_every: u64,
    pub dispatcher: DispatcherView,
    /// When the next flush is due.
    pub next_flush: u64,
    /// When the next purge of the cache of contexts is due.
    pub next_purge: u64,
    /// Whether the pipeline was closed.
    pub closed: bool,
    /// Whether the service refused the credential, so that nothing is sent
    /// any more.
    pub disabled: bool,
}

/// The processor for `config` that starts at `now`: it runs, nothing waits,
/// and the first flush and the first purge are due one interval later.
pub open spec fn started(config: crate::events::EventsConfigurationView, now: u64)
    -> ProcessorView {
    ProcessorView {
        all_attributes_private: config.all_attributes_private,
        private_attributes: config.private_attributes,
        flush_every: config.flush_interval.capped_millis(),
        purge_every: config.context_keys_flush_interval.capped_millis(),
        dispatcher: DispatcherView {
            capacity: config.capacity,
            context_keys_interval: config.context_keys_flush_interval.capped_millis(),
            omit_anonymous_contexts: config.omit_anonymous_contexts,
            outbox: Seq::empty(),
            summary: crate::events::summarizer::SummaryView::empty(),
            context_keys: crate::events::context_keys::CacheView {
                capacity: if config.context_keys_capacity == 0 {
                    1
                } else {
                    config.context_keys_capacity
                },
                entries: Seq::empty(),
            },
            dropped: 0,
        },
        next_flush: later(now, config.flush_interval.capped_millis()),
        next_purge: later(now, config.context_keys_flush_interval.capped_millis()),
        closed: false,
        disabled: false,
    }
}

impl ProcessorView {
    /// Whether the pipeline takes and delivers events.
    pub open spec fn running(self) -> bool {
        !self.closed && !self.disabled
    }

    /// The processor after `event` is submitted: a running pipeline takes the
    /// event, any other leaves it.
    pub open spec fn submit(self, event: InputEventView) -> ProcessorView {
        if self.running() {
            ProcessorView { dispatcher: self.dispatcher.submit(event), ..self }
        } else {
            self
        }
    }

    /// The processor after a flush, and the batch to deliver: `None` where
    /// the pipeline is not running or there is nothing to deliver.
    pub open spec fn flush(self) -> (ProcessorView, Option<Seq<OutputEventView>>) {
        if self.running() {
            let batch = batch_of(
                self.dispatcher.pending(),
                self.all_attributes_private,
                self.private_attributes,
            );
            (ProcessorView { dispatcher: self.dispatcher.flushed(), ..self }, if batch.len() == 0 {
                None
            } else {
                Some(batch)
            })
        } else {
            (self, None)
        }
    }

    /// The processor after the purge that is due at `now`, if one is.
    pub open spec fn purge_if_due(self, now: u64) -> ProcessorView {
        if self.running() && now >= self.next_purge {
            ProcessorView {
                dispatcher: self.dispatcher.purge(now),
                next_purge: later(now, self.purge_every),
                ..self
            }
        } else {
            self
        }
    }

    /// The processor after the clock shows `now`, and the batch to deliver if
    /// a flush was due.
    pub open spec fn tick(self, now: u64) -> (ProcessorView, Option<Seq<OutputEventView>>) {
        let purged = self.purge_if_due(now);
        if purged.running() && now >= purged.next_flush {
            (
                ProcessorView { next_flush: later(now, purged.flush_every), ..purged.flush().0 },
                purged.flush().1,
            )
        } else {
            (purged, None)
        }
    }

    /// The processor after it is closed, and the last batch to deliver. A
    /// processor that is closed already stays as it is and delivers nothing.
    pub open spec fn close(self) -> (ProcessorView, Option<Seq<OutputEventView>>) {
        if self.closed {
            (self, None)
        } else {
            (ProcessorView { closed: true, ..self.flush().0 }, self.flush().1)
        }
    }

    /// The processor after it learns what a delivery came to: it sends
    /// nothing any more if the service refused the credential. The batch is
    /// gone either way.
    pub open spec fn delivered(self, result: EventSenderResult) -> ProcessorView {
        if result.must_shutdown {
            ProcessorView { disabled: true, ..self }
        } else {
            self
        }
    }
}

/// Makes, flushes and ends the pipeline. The processor decides; its owner
/// performs the deliveries and tells the clock.
pub struct EventProcessor {
    config: EventsConfiguration,
    flush_every: u64,
    purge_every: u64,
    dispatcher: EventDispatcher,
    next_flush: u64,
    next_purge: u64,
    closed: bool,
    disabled: bool,
}

impl View for EventProcessor {
    type V = ProcessorView;

    closed spec fn view(&self) -> ProcessorView {
        ProcessorView {
            all_attributes_private: self.config.all_attributes_private,
            private_attributes: names_view(self.config.private_attributes@),
            flush_every: self.flush_every,
            purge_every: self.purge_every,
            dispatcher: self.dispatcher@,
            next_flush: self.next_flush,
            next_purge: self.next_purge,
            closed: self.closed,
            disabled: self.disabled,
        }
    }
}

/// The event that is delivered for a waiting event.
fn make_output(event: &QueuedEvent, all_private: bool, global: &Vec<String>) -> (out: OutputEvent)
    ensures
        out@ == output_of(event@, all_private, names_view(global@)),
{
    OutputEvent::Event {
        creation_date: event.creation_date,
        context: event.context.redact(all_private, global),
        body: event.body.duplicate(),
    }
}

/// Makes the batch that is delivered for what a flush took out.
pub fn build_batch(pending: Pending, all_private: bool, global: &Vec<String>) -> (batch: Vec<
    OutputEvent,
>)
    ensures
        batch_view(batch@) == batch_of(pending@, all_private, names_view(global@)),
{
    let ghost named = names_view(global@);
    let ghost convert = |event: QueuedEventView| output_of(event, all_private, named);
    let Pending { events, summary } = pending;
    let mut batch: Vec<OutputEvent> = Vec::new();
    let mut i: usize = 0;
    while i < events.len()
        invariant
            i <= events.len(),
            named == names_view(global@),
            convert == |event: QueuedEventView| output_of(event, all_private, named),
            batch_view(batch@) =~= queued_view(events@).take(i as int).map_values(convert),
        decreases events.len() - i,
    {
        let ghost so_far = batch_view(batch@);
        let out = make_output(&events[i], all_private, global);
        batch.push(out);
        assert(batch_view(batch@) =~= so_far.push(out@));
        assert(queued_view(events@).take(i as int + 1) =~= queued_view(events@).take(
            i as int,
        ).push(events@[i as int]@));
        i += 1;
    }
    assert(queued_view(events@).take(i as int) =~= queued_view(events@));
    match summary {
        Some(summary) => {
            let ghost so_far = batch_view(batch@);
            batch.push(OutputEvent::Summary(summary));
            assert(batch_view(batch@) =~= so_far.push(OutputEventView::Summary(summary@)));
            assert(batch_view(batch@) =~= so_far + seq![OutputEventView::Summary(summary@)]);
        },
        None => {
            assert(batch_view(batch@) =~= batch_view(batch@) + Seq::empty());
        },
    }
    batch
}

impl EventProcessor {
    /// A running processor for `config`, started at `now` (milliseconds): the
    /// first flush and the first purge are due one interval later.
    pub fn new(config: EventsConfiguration, now: u64) -> (processor: Self)
        ensures
            processor@ == started(config@, now),
            processor@.dispatcher.well_formed(),
    {
        let flush_every = config.flush_interval.as_millis_saturating();
        let purge_every = config.context_keys_flush_interval.as_millis_saturating();
        let dispatcher = EventDispatcher::new(
            config.capacity,
            config.context_keys_capacity,
            purge_every,
            config.omit_anonymous_contexts,
        );
        EventProcessor {
            config,
            flush_every,
            purge_every,
            dispatcher,
            next_flush: now.saturating_add(flush_every),
            next_purge: now.saturating_add(purge_every),
            closed: false,
            disabled: false,
        }
    }

    /// Whether the pipeline was closed.
    pub fn is_closed(&self) -> (closed: bool)
        ensures
            closed == self@.closed,
    {
        self.closed
    }

    /// Whether the pipeline sends nothing any more because the service refused
    /// the credential.
    pub fn is_disabled(&self) -> (disabled: bool)
        ensures
            disabled == self@.disabled,
    {
        self.disabled
    }

    /// How many events found the queue full and were dropped.
    pub fn dropped(&self) -> (dropped: u64)
        ensures
            dropped == self@.dispatcher.dropped,
    {
        self.dispatcher.dropped()
    }

    /// How many events wait for the next flush.
    pub fn queued(&self) -> (queued: usize)
        ensures
            queued == self@.dispatcher.outbox.len(),
    {
        self.dispatcher.queued()
    }

    /// Submits one event. The call never waits; a pipeline that is closed or
    /// disabled leaves the event.
    pub fn submit(&mut self, event: InputEvent)
        ensures
            final(self)@ == old(self)@.submit(event@),
    {
        if !self.closed && !self.disabled {
            self.dispatcher.submit(event);
        }
    }

    /// Reports one evaluation of a flag, made for `context` at `now`.
    pub fn track_feature_event(&mut self, context: Context, request: FeatureRequest, now: u64)
        ensures
            final(self)@ == old(self)@.submit(
                InputEventView {
                    creation_date: now,
                    context: context@,
                    payload: crate::events::event::InputPayloadView::FeatureRequest(request@),
                },
            ),
    {
        self.submit(
            InputEvent { creation_date: now, context, payload: InputPayload::FeatureRequest(request) },
        );
    }

    /// Reports that `context` was identified at `now`.
    pub fn track_identify(&mut self, context: Context, now: u64)
        ensures
            final(self)@ == old(self)@.submit(
                InputEventView {
                    creation_date: now,
                    context: context@,
                    payload: crate::events::event::InputPayloadView::Identify,
                },
            ),
    {
        self.submit(InputEvent { creation_date: now, context, payload: InputPayload::Identify });
    }

    /// Reports the custom event `key` for `context` at `now`, with the data
    /// and the number that go with it, if any.
    pub fn track_custom(
        &mut self,
        context: Context,
        key: String,
        data: Option<String>,
        metric_value: Option<String>,
        now: u64,
    )
        ensures
            final(self)@ == old(self)@.submit(
                InputEventView {
                    creation_date: now,
                    context: context@,
                    payload: crate::events::event::InputPayloadView::Custom(
                        crate::events::event::CustomView {
                            key: key@,
                            data: crate::events::event::text_of(data),
                            metric_value: crate::events::event::text_of(metric_value),
                        },
                    ),
                },
            ),
    {
        self.submit(
            InputEvent {
                creation_date: now,
                context,
                payload: InputPayload::Custom(Custom { key, data, metric_value }),
            },
        );
    }

    /// Reports what a migration operation did for `context` at `now`. A
    /// pipeline that is closed or disabled leaves the report; the operation
    /// itself is not touched by that.
    pub fn track_migration_op(
        &mut self,
        context: Context,
        op: crate::events::event::MigrationOp,
        now: u64,
    )
        ensures
            final(self)@ == old(self)@.submit(
                InputEventView {
                    creation_date: now,
                    context: context@,
                    payload: crate::events::event::InputPayloadView::Migration(op@),
                },
            ),
    {
        self.submit(InputEvent { creation_date: now, context, payload: InputPayload::Migration(op) });
    }

    /// Makes a batch of what waits, whatever the clock shows. Returns the
    /// batch to deliver, and `None` where the pipeline is not running or
    /// nothing waits.
    pub fn flush(&mut self) -> (batch: Option<Vec<OutputEvent>>)
        ensures
            final(self)@ == old(self)@.flush().0,
            match batch {
                Some(batch) => old(self)@.flush().1 == Some(batch_view(batch@)),
                None => old(self)@.flush().1 is None,
            },
    {
        if self.closed || self.disabled {
            return None;
        }
        let pending = self.dispatcher.take_pending();
        let batch = build_batch(
            pending,
            self.config.all_attributes_private,
            &self.config.private_attributes,
        );
        if batch.len() == 0 {
            None
        } else {
            Some(batch)
        }
    }

    /// Tells the processor that the clock shows `now`. Forgets the contexts
    /// that are known too long if that is due, and returns the batch to
    /// deliver if a flush is due and something waits.
    pub fn tick(&mut self, now: u64) -> (batch: Option<Vec<OutputEvent>>)
        ensures
            final(self)@ == old(self)@.tick(now).0,
            match batch {
                Some(batch) => old(self)@.tick(now).1 == Some(batch_view(batch@)),
                None => old(self)@.tick(now).1 is None,
            },
    {
        if self.closed || self.disabled {
            return None;
        }
        if now >= self.next_purge {
            self.dispatcher.purge_context_keys(now);
            self.next_purge = now.saturating_add(self.purge_every);
        }
        if now >= self.next_flush {
            let batch = self.flush();
            self.next_flush = now.saturating_add(self.flush_every);
            batch
        } else {
            None
        }
    }

    /// Closes the pipeline. The first call returns the last batch to deliver,
    /// with every event that was queued before; later calls change nothing
    /// and return `None`.
    pub fn close(&mut self) -> (batch: Option<Vec<OutputEvent>>)
        ensures
            final(self)@ == old(self)@.close().0,
            match batch {
                Some(batch) => old(self)@.close().1 == Some(batch_view(batch@)),
                None => old(self)@.close().1 is None,
            },
    {
        if self.closed {
            return None;
        }
        let batch = self.flush();
        self.closed = true;
        batch
    }

    /// Tells the processor what a delivery came to. The batch is not queued
    /// again whatever the result; after a refused credential nothing is sent
    /// any more.
    pub fn delivered(&mut self, result: &EventSenderResult)
        ensures
            final(self)@ == old(self)@.delivered(*result),
    {
        if result.must_shutdown {
            self.disabled = true;
        }
    }
}

/// Closing twice delivers the last batch once: the second call returns no
/// batch and leaves the processor as the first call left it. After the first
/// call nothing waits any more, and every event that waited is in its batch.
pub proof fn lemma_close_is_idempotent(processor: ProcessorView)
    ensures
        processor.close().0.close() == (processor.close().0, None::<Seq<OutputEventView>>),
        processor.close().0.closed,
        processor.running() ==> processor.close().0.dispatcher.outbox.len() == 0,
        processor.running() && processor.dispatcher.outbox.len() > 0 ==> processor.close().1
            is Some && processor.close().1->Some_0.len() >= processor.dispatcher.outbox.len(),
        processor.running() ==> forall|i: int|
            0 <= i < processor.dispatcher.outbox.len() ==> processor.close().1->Some_0[i]
                == output_of(
                #[trigger] processor.dispatcher.outbox[i],
                processor.all_attributes_private,
                processor.private_attributes,
            ),
{
}

/// A closed pipeline takes no events and delivers none, whatever is asked of
/// it.
pub proof fn lemma_closed_stays_silent(processor: ProcessorView, event: InputEventView, now: u64)
    requires
        processor.closed,
    ensures
        processor.submit(event) == processor,
        processor.flush() == (processor, None::<Seq<OutputEventView>>),
        processor.tick(now) == (processor, None::<Seq<OutputEventView>>),
        processor.close() == (processor, None::<Seq<OutputEventView>>),
{
}

/// A batch never holds more events than the capacity allows.
pub proof fn lemma_flushed_batch_within_capacity(processor: ProcessorView)
    requires
        processor.dispatcher.well_formed(),
    ensures
        processor.flush().1 matches Some(batch) ==> batch.len() <= processor.dispatcher.capacity,
{
}

} // verus!
