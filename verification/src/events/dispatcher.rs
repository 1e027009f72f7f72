//! The entry point of the pipeline: takes an event, counts it, and queues
//! what is to be delivered for it. Nothing here waits: when the queue is full
//! an event is dropped and counted.

use crate::events::context_keys::{CacheView, ContextKeysCache};
use crate::events::event::{
    queued_view, EventBody, EventBodyView, FeatureRequestView, InputEvent, InputEventView,
    InputPayload, InputPayloadView, QueuedEvent, QueuedEventView,
};
use crate::events::summarizer::{bumped, CounterKey, EventSummary, SummaryView};
use vstd::prelude::*;

verus! {

/// A dispatcher as plain mathematical values.
pub struct DispatcherView {
    /// How many events the queue holds at most.
    pub capacity: nat,
    /// For how many milliseconds a context that was seen counts as known.
    pub context_keys_interval: u64,
    /// Whether the contexts of anonymous users are left out.
    pub omit_anonymous_contexts: bool,
    /// The events that wait for the next flush, oldest first.
    pub outbox: Seq<QueuedEventView>,
    pub summary: SummaryView,
    pub context_keys: CacheView,
    /// How many events found the queue full and were dropped.
    pub dropped: nat,
}

/// What a flush takes out of the dispatcher.
pub struct Pending {
    pub events: Vec<QueuedEvent>,
    pub summary: Option<EventSummary>,
}

/// A [Pending] as plain mathematical values.
pub struct PendingView {
    pub events: Seq<QueuedEventView>,
    pub summary: Option<SummaryView>,
}

impl View for Pending {
    type V = PendingView;

    open spec fn view(&self) -> PendingView {
        PendingView {
            events: queued_view(self.events@),
            summary: match self.summary {
                Some(summary) => Some(summary@),
                None => None,
            },
        }
    }
}

/// Whether an evaluation made at `time` is to be reported in full for
/// debugging.
pub open spec fn debugging(request: FeatureRequestView, time: u64) -> bool {
    match request.debug_events_until_date {
        Some(until) => time < until,
        None => false,
    }
}

/// Whether the cache of contexts is asked about the context of `event`:
/// for evaluations and identifications, unless the context is anonymous and
/// such contexts are left out.
pub open spec fn consults_cache(event: InputEventView, omit_anonymous_contexts: bool) -> bool {
    (event.payload is FeatureRequest || event.payload is Identify) && !(omit_anonymous_contexts
        && event.context.anonymous)
}

/// The event that `body` makes with the time and context of `event`.
pub open spec fn queued_for(event: InputEventView, body: EventBodyView) -> QueuedEventView {
    QueuedEventView { creation_date: event.creation_date, context: event.context, body }
}

/// The events to queue for `event`, in their order: the index event first
/// where the context must be sent in full (`index`), then what the event
/// itself asks for.
pub open spec fn produced(event: InputEventView, index: bool, omit_anonymous_contexts: bool) -> Seq<
    QueuedEventView,
> {
    let first = if index {
        seq![queued_for(event, EventBodyView::Index)]
    } else {
        Seq::empty()
    };
    let rest = match event.payload {
        InputPayloadView::FeatureRequest(request) => {
            let feature = if request.track_events {
                seq![queued_for(event, EventBodyView::Feature(request))]
            } else {
                Seq::empty()
            };
            let debug = if debugging(request, event.creation_date) {
                seq![queued_for(event, EventBodyView::Debug(request))]
            } else {
                Seq::empty()
            };
            feature + debug
        },
        InputPayloadView::Identify => if omit_anonymous_contexts && event.context.anonymous {
            Seq::empty()
        } else {
            seq![queued_for(event, EventBodyView::Identify)]
        },
        InputPayloadView::Custom(custom) => seq![queued_for(event, EventBodyView::Custom(custom))],
        InputPayloadView::Migration(op) => seq![queued_for(event, EventBodyView::MigrationOp(op))],
    };
    first + rest
}

impl DispatcherView {
    /// The queue keeps within its limit, and the cache of contexts is
    /// well-formed.
    pub open spec fn well_formed(self) -> bool {
        self.outbox.len() <= self.capacity && self.context_keys.well_formed()
    }

    /// The dispatcher after `event` is offered to the queue: queued if there
    /// is room, dropped and counted if there is none.
    pub open spec fn offer(self, event: QueuedEventView) -> DispatcherView {
        if self.outbox.len() < self.capacity {
            DispatcherView { outbox: self.outbox.push(event), ..self }
        } else {
            DispatcherView { dropped: bumped(self.dropped), ..self }
        }
    }

    /// The dispatcher after `events` are offered to the queue one after the
    /// other.
    pub open spec fn offer_all(self, events: Seq<QueuedEventView>) -> DispatcherView
        decreases events.len(),
    {
        if events.len() == 0 {
            self
        } else {
            self.offer_all(events.drop_last()).offer(events.last())
        }
    }

    /// The summary after `event` is counted: evaluations are, other events
    /// are not.
    pub open spec fn summarize(self, event: InputEventView) -> SummaryView {
        match event.payload {
            InputPayloadView::FeatureRequest(request) => self.summary.record(
                CounterKey {
                    flag_key: request.key,
                    variation: request.variation,
                    is_default: request.is_default,
                },
                request.value,
                request.version,
                event.creation_date,
            ),
            _ => self.summary,
        }
    }

    /// Whether submitting `event` makes an index event: the cache of contexts
    /// is asked about the context, and says that it must be sent in full.
    pub open spec fn indexes(self, event: InputEventView) -> bool {
        consults_cache(event, self.omit_anonymous_contexts) && self.context_keys.notice(
            event.context.kind,
            event.context.key,
            event.creation_date,
            self.context_keys_interval,
        ).1
    }

    /// The dispatcher after `event` is submitted: the event is counted, the
    /// cache of contexts is asked where the event calls for it, and what is
    /// to be delivered is offered to the queue.
    pub open spec fn submit(self, event: InputEventView) -> DispatcherView {
        let asked = consults_cache(event, self.omit_anonymous_contexts);
        let noticed = self.context_keys.notice(
            event.context.kind,
            event.context.key,
            event.creation_date,
            self.context_keys_interval,
        );
        let counted = DispatcherView {
            summary: self.summarize(event),
            context_keys: if asked {
                noticed.0
            } else {
                self.context_keys
            },
            ..self
        };
        counted.offer_all(produced(event, asked && noticed.1, self.omit_anonymous_contexts))
    }

    /// The dispatcher after `events` are submitted one after the other.
    pub open spec fn submit_all(self, events: Seq<InputEventView>) -> DispatcherView
        decreases events.len(),
    {
        if events.len() == 0 {
            self
        } else {
            self.submit_all(events.drop_last()).submit(events.last())
        }
    }

    /// How many events the next batch holds.
    pub open spec fn batch_size(self) -> nat {
        self.pending().events.len() + if self.pending().summary is Some {
            1nat
        } else {
            0nat
        }
    }

    /// The dispatcher after the contexts that are no longer fresh at `now` are
    /// forgotten.
    pub open spec fn purge(self, now: u64) -> DispatcherView {
        DispatcherView {
            context_keys: self.context_keys.purge(now, self.context_keys_interval),
            ..self
        }
    }

    /// Whether the summary goes into the next batch: something was counted,
    /// and the queue leaves room for one more event.
    pub open spec fn summary_fits(self) -> bool {
        self.summary.window is Some && self.outbox.len() < self.capacity
    }

    /// What the next flush takes out.
    pub open spec fn pending(self) -> PendingView {
        PendingView {
            events: self.outbox,
            summary: if self.summary_fits() {
                Some(self.summary)
            } else {
                None
            },
        }
    }

    /// The dispatcher after a flush: nothing waits and nothing is counted; a
    /// summary that found no room is counted as dropped.
    pub open spec fn flushed(self) -> DispatcherView {
        DispatcherView {
            outbox: Seq::empty(),
            summary: SummaryView::empty(),
            dropped: if self.summary.window is Some && !self.summary_fits() {
                bumped(self.dropped)
            } else {
                self.dropped
            },
            ..self
        }
    }
}

/// Takes events from any number of producers, counts evaluations, notes which
/// contexts were seen, and queues what the next flush delivers.
pub struct EventDispatcher {
    capacity: usize,
    context_keys_interval: u64,
    omit_anonymous_contexts: bool,
    outbox: Vec<QueuedEvent>,
    summary: EventSummary,
    context_keys: ContextKeysCache,
    dropped: u64,
}

impl View for EventDispatcher {
    type V = DispatcherView;

    closed spec fn view(&self) -> DispatcherView {
        DispatcherView {
            capacity: self.capacity as nat,
            context_keys_interval: self.context_keys_interval,
            omit_anonymous_contexts: self.omit_anonymous_contexts,
            outbox: queued_view(self.outbox@),
            summary: self.summary@,
            context_keys: self.context_keys@,
            dropped: self.dropped as nat,
        }
    }
}

impl EventDispatcher {
    /// A dispatcher with an empty queue of the given capacity, an empty
    /// summary, and an empty cache for `context_keys_capacity` contexts (one,
    /// where that is zero) that count as known for
    /// `context_keys_interval` milliseconds.
    pub fn new(
        capacity: usize,
        context_keys_capacity: usize,
        context_keys_interval: u64,
        omit_anonymous_contexts: bool,
    ) -> (dispatcher: Self)
        ensures
            dispatcher@ == (DispatcherView {
                capacity: capacity as nat,
                context_keys_interval,
                omit_anonymous_contexts,
                outbox: Seq::empty(),
                summary: SummaryView::empty(),
                context_keys: CacheView {
                    capacity: if context_keys_capacity == 0 {
                        1
                    } else {
                        context_keys_capacity as nat
                    },
                    entries: Seq::empty(),
                },
                dropped: 0,
            }),
            dispatcher@.well_formed(),
    {
        let dispatcher = EventDispatcher {
            capacity,
            context_keys_interval,
            omit_anonymous_contexts,
            outbox: Vec::new(),
            summary: EventSummary::new(),
            context_keys: ContextKeysCache::new(context_keys_capacity),
            dropped: 0,
        };
        assert(dispatcher@.outbox =~= Seq::empty());
        dispatcher
    }

    /// How many events wait for the next flush.
    pub fn queued(&self) -> (queued: usize)
        ensures
            queued == self@.outbox.len(),
    {
        self.outbox.len()
    }

    /// How many events found the queue full and were dropped.
    pub fn dropped(&self) -> (dropped: u64)
        ensures
            dropped == self@.dropped,
    {
        self.dropped
    }

    /// Offers one event to the queue.
    fn offer(&mut self, event: QueuedEvent)
        ensures
            final(self)@ == old(self)@.offer(event@),
    {
        if self.outbox.len() < self.capacity {
            let ghost before = queued_view(self.outbox@);
            self.outbox.push(event);
            assert(queued_view(self.outbox@) =~= before.push(event@));
        } else {
            self.dropped = self.dropped.saturating_add(1);
        }
    }

    /// Submits one event. The call never waits: what finds the queue full is
    /// dropped and counted.
    pub fn submit(&mut self, event: InputEvent)
        ensures
            final(self)@ == old(self)@.submit(event@),
            old(self)@.well_formed() ==> final(self)@.well_formed(),
    {
        proof {
            if old(self)@.well_formed() {
                lemma_submit_keeps_well_formed(old(self)@, event@);
            }
        }
        let ghost start = self@;
        let ghost given = event@;
        let InputEvent { creation_date, context, payload } = event;
        let omit = self.omit_anonymous_contexts && context.anonymous;
        let asks = match &payload {
            InputPayload::FeatureRequest(_) => !omit,
            InputPayload::Identify => !omit,
            _ => false,
        };
        let index = asks && self.context_keys.notice(
            &context.kind,
            &context.key,
            creation_date,
            self.context_keys_interval,
        );
        if let InputPayload::FeatureRequest(request) = &payload {
            self.summary.accumulate(
                &request.key,
                request.variation,
                &request.value,
                request.is_default,
                request.version,
                creation_date,
            );
        }
        let ghost counted = self@;
        assert(counted == (DispatcherView {
            summary: start.summarize(given),
            context_keys: if consults_cache(given, start.omit_anonymous_contexts) {
                start.context_keys.notice(
                    given.context.kind,
                    given.context.key,
                    given.creation_date,
                    start.context_keys_interval,
                ).0
            } else {
                start.context_keys
            },
            ..start
        }));
        let ghost all = produced(given, index, self.omit_anonymous_contexts);
        let ghost first = if index {
            seq![queued_for(given, EventBodyView::Index)]
        } else {
            Seq::empty()
        };
        assert(counted.offer_all(Seq::empty()) == counted);
        if index {
            self.offer(
                QueuedEvent { creation_date, context: context.duplicate(), body: EventBody::Index },
            );
            assert(first.drop_last() =~= Seq::empty());
        }
        assert(self@ == counted.offer_all(first));
        match payload {
            InputPayload::FeatureRequest(request) => {
                let debug = match request.debug_events_until_date {
                    Some(until) => creation_date < until,
                    None => false,
                };
                let ghost feature = queued_for(given, EventBodyView::Feature(request@));
                let ghost full = queued_for(given, EventBodyView::Debug(request@));
                if request.track_events && debug {
                    self.offer(
                        QueuedEvent {
                            creation_date,
                            context: context.duplicate(),
                            body: EventBody::Feature(request.duplicate()),
                        },
                    );
                    assert(first.push(feature).drop_last() =~= first);
                    assert(self@ == counted.offer_all(first.push(feature)));
                    self.offer(QueuedEvent { creation_date, context, body: EventBody::Debug(request) });
                    assert(first.push(feature).push(full).drop_last() =~= first.push(feature));
                    assert(self@ == counted.offer_all(first.push(feature).push(full)));
                    assert(all =~= first.push(feature).push(full));
                } else if request.track_events {
                    self.offer(
                        QueuedEvent { creation_date, context, body: EventBody::Feature(request) },
                    );
                    assert(first.push(feature).drop_last() =~= first);
                    assert(self@ == counted.offer_all(first.push(feature)));
                    assert(all =~= first.push(feature));
                } else if debug {
                    self.offer(QueuedEvent { creation_date, context, body: EventBody::Debug(request) });
                    assert(first.push(full).drop_last() =~= first);
                    assert(self@ == counted.offer_all(first.push(full)));
                    assert(all =~= first.push(full));
                } else {
                    assert(all =~= first);
                }
            },
            InputPayload::Identify => {
                if omit {
                    assert(all =~= first);
                } else {
                    let ghost identify = queued_for(given, EventBodyView::Identify);
                    self.offer(QueuedEvent { creation_date, context, body: EventBody::Identify });
                    assert(first.push(identify).drop_last() =~= first);
                    assert(self@ == counted.offer_all(first.push(identify)));
                    assert(all =~= first.push(identify));
                }
            },
            InputPayload::Custom(custom) => {
                let ghost queued = queued_for(given, EventBodyView::Custom(custom@));
                self.offer(QueuedEvent { creation_date, context, body: EventBody::Custom(custom) });
                assert(first.push(queued).drop_last() =~= first);
                assert(self@ == counted.offer_all(first.push(queued)));
                assert(all =~= first.push(queued));
            },
            InputPayload::Migration(op) => {
                let ghost queued = queued_for(given, EventBodyView::MigrationOp(op@));
                self.offer(QueuedEvent { creation_date, context, body: EventBody::MigrationOp(op) });
                assert(first.push(queued).drop_last() =~= first);
                assert(self@ == counted.offer_all(first.push(queued)));
                assert(all =~= first.push(queued));
            },
        }
    }

    /// Forgets the contexts that were last seen too long before `now` to count
    /// as known.
    pub fn purge_context_keys(&mut self, now: u64)
        ensures
            final(self)@ == old(self)@.purge(now),
            old(self)@.well_formed() ==> final(self)@.well_formed(),
    {
        self.context_keys.purge(now, self.context_keys_interval);
    }

    /// Takes out what the next batch is made of and starts over: the events
    /// that wait, and the summary if anything was counted and the batch has
    /// room for it. A summary that finds no room is dropped and counted.
    pub fn take_pending(&mut self) -> (pending: Pending)
        ensures
            pending@ == old(self)@.pending(),
            final(self)@ == old(self)@.flushed(),
            old(self)@.well_formed() ==> final(self)@.well_formed(),
    {
        let mut events: Vec<QueuedEvent> = Vec::new();
        std::mem::swap(&mut self.outbox, &mut events);
        let room = events.len() < self.capacity;
        let summary = match self.summary.take() {
            Some(summary) => {
                if room {
                    Some(summary)
                } else {
                    self.dropped = self.dropped.saturating_add(1);
                    None
                }
            },
            None => None,
        };
        assert(queued_view(self.outbox@) =~= Seq::empty());
        Pending { events, summary }
    }
}

/// Offering events to the queue keeps the queue within its limit, and every
/// event offered is then either queued or counted as dropped.
pub proof fn lemma_offered_is_queued_or_dropped(
    dispatcher: DispatcherView,
    events: Seq<QueuedEventView>,
)
    requires
        dispatcher.outbox.len() <= dispatcher.capacity,
    ensures
        dispatcher.offer_all(events).outbox.len() <= dispatcher.capacity,
        dispatcher.offer_all(events).outbox.len() == if dispatcher.outbox.len() + events.len()
            <= dispatcher.capacity {
            dispatcher.outbox.len() + events.len()
        } else {
            dispatcher.capacity
        },
        dispatcher.dropped + events.len() <= u64::MAX ==> dispatcher.offer_all(events).outbox.len()
            + dispatcher.offer_all(events).dropped == dispatcher.outbox.len() + dispatcher.dropped
            + events.len(),
        dispatcher.offer_all(events).capacity == dispatcher.capacity,
        dispatcher.offer_all(events).context_keys_interval == dispatcher.context_keys_interval,
        dispatcher.offer_all(events).omit_anonymous_contexts
            == dispatcher.omit_anonymous_contexts,
        dispatcher.offer_all(events).context_keys == dispatcher.context_keys,
        dispatcher.offer_all(events).summary == dispatcher.summary,
        dispatcher.offer_all(events).dropped >= dispatcher.dropped,
    decreases events.len(),
{
    if events.len() > 0 {
        lemma_offered_is_queued_or_dropped(dispatcher, events.drop_last());
    }
}

/// Submitting an event keeps a well-formed dispatcher well-formed: the queue
/// stays within its limit.
pub proof fn lemma_submit_keeps_well_formed(dispatcher: DispatcherView, event: InputEventView)
    requires
        dispatcher.well_formed(),
    ensures
        dispatcher.submit(event).well_formed(),
        dispatcher.submit(event).capacity == dispatcher.capacity,
{
    let asked = consults_cache(event, dispatcher.omit_anonymous_contexts);
    let noticed = dispatcher.context_keys.notice(
        event.context.kind,
        event.context.key,
        event.creation_date,
        dispatcher.context_keys_interval,
    );
    crate::events::context_keys::lemma_notice_keeps_well_formed(
        dispatcher.context_keys,
        event.context.kind,
        event.context.key,
        event.creation_date,
        dispatcher.context_keys_interval,
    );
    let counted = DispatcherView {
        summary: dispatcher.summarize(event),
        context_keys: if asked {
            noticed.0
        } else {
            dispatcher.context_keys
        },
        ..dispatcher
    };
    lemma_offered_is_queued_or_dropped(
        counted,
        produced(event, asked && noticed.1, dispatcher.omit_anonymous_contexts),
    );
}

/// However many events are submitted, the next batch holds no more events than
/// the capacity allows.
pub proof fn lemma_batch_within_capacity(dispatcher: DispatcherView, events: Seq<InputEventView>)
    requires
        dispatcher.well_formed(),
    ensures
        dispatcher.submit_all(events).well_formed(),
        dispatcher.submit_all(events).capacity == dispatcher.capacity,
        dispatcher.submit_all(events).batch_size() <= dispatcher.capacity,
    decreases events.len(),
{
    if events.len() > 0 {
        lemma_batch_within_capacity(dispatcher, events.drop_last());
        lemma_submit_keeps_well_formed(dispatcher.submit_all(events.drop_last()), events.last());
    }
}

/// After `n` custom events are submitted, the queue holds them as far as the
/// capacity allows, and the others are counted as dropped.
pub proof fn lemma_overflow_is_dropped_and_counted(
    dispatcher: DispatcherView,
    events: Seq<InputEventView>,
)
    requires
        dispatcher.well_formed(),
        forall|i: int| 0 <= i < events.len() ==> (#[trigger] events[i]).payload is Custom,
        dispatcher.dropped + events.len() <= u64::MAX,
    ensures
        dispatcher.submit_all(events).outbox.len() == if dispatcher.outbox.len() + events.len()
            <= dispatcher.capacity {
            dispatcher.outbox.len() + events.len()
        } else {
            dispatcher.capacity
        },
        dispatcher.submit_all(events).outbox.len() + dispatcher.submit_all(events).dropped
            == dispatcher.outbox.len() + dispatcher.dropped + events.len(),
        dispatcher.submit_all(events).capacity == dispatcher.capacity,
    decreases events.len(),
{
    if events.len() > 0 {
        let earlier = dispatcher.submit_all(events.drop_last());
        let last = events.last();
        assert forall|i: int| 0 <= i < events.drop_last().len() implies (
        #[trigger] events.drop_last()[i]).payload is Custom by {
            assert(events.drop_last()[i] == events[i]);
        }
        lemma_overflow_is_dropped_and_counted(dispatcher, events.drop_last());
        lemma_batch_within_capacity(dispatcher, events.drop_last());
        let custom = last.payload->Custom_0;
        let queued = seq![queued_for(last, EventBodyView::Custom(custom))];
        assert(produced(last, false, earlier.omit_anonymous_contexts) =~= queued);
        assert(!consults_cache(last, earlier.omit_anonymous_contexts));
        assert(earlier.submit(last) == earlier.offer_all(queued));
        lemma_offered_is_queued_or_dropped(earlier, queued);
    }
}

/// Two events about the same context, one submitted after the other: the
/// second makes an index event exactly when the time for which a context
/// counts as known, or more, lies between the two. The first makes one where
/// the context was not known. So within that time a context gets one index
/// event, and after it another.
pub proof fn lemma_one_index_event_per_interval(
    dispatcher: DispatcherView,
    first: InputEventView,
    second: InputEventView,
)
    requires
        dispatcher.well_formed(),
        consults_cache(first, dispatcher.omit_anonymous_contexts),
        consults_cache(second, dispatcher.omit_anonymous_contexts),
        first.context.kind == second.context.kind,
        first.context.key == second.context.key,
        first.creation_date <= second.creation_date,
    ensures
        !dispatcher.context_keys.holds(first.context.kind, first.context.key)
            ==> dispatcher.indexes(first),
        dispatcher.submit(first).indexes(second) == (second.creation_date - first.creation_date
            >= dispatcher.context_keys_interval),
        dispatcher.indexes(first) ==> produced(
            first,
            dispatcher.indexes(first),
            dispatcher.omit_anonymous_contexts,
        )[0] == queued_for(first, EventBodyView::Index),
{
    let noticed = dispatcher.context_keys.notice(
        first.context.kind,
        first.context.key,
        first.creation_date,
        dispatcher.context_keys_interval,
    );
    let counted = DispatcherView {
        summary: dispatcher.summarize(first),
        context_keys: noticed.0,
        ..dispatcher
    };
    lemma_offered_is_queued_or_dropped(
        counted,
        produced(first, noticed.1, dispatcher.omit_anonymous_contexts),
    );
    assert(dispatcher.submit(first) == counted.offer_all(
        produced(first, noticed.1, dispatcher.omit_anonymous_contexts),
    ));
    assert(dispatcher.submit(first).context_keys == noticed.0);
    crate::events::context_keys::lemma_sent_once_per_interval(
        dispatcher.context_keys,
        first.context.kind,
        first.context.key,
        first.creation_date,
        first.creation_date,
        second.creation_date,
        dispatcher.context_keys_interval,
    );
}

/// Where an event makes an index event, the index event is the first of what
/// the event queues, and it carries the context of the event: so it stands
/// before every other event that the submission queues for that context.
pub proof fn lemma_index_event_comes_first(event: InputEventView, omit_anonymous_contexts: bool)
    ensures
        produced(event, true, omit_anonymous_contexts).len() >= 1,
        produced(event, true, omit_anonymous_contexts)[0] == queued_for(
            event,
            EventBodyView::Index,
        ),
        forall|i: int|
            1 <= i < produced(event, true, omit_anonymous_contexts).len() ==> (#[trigger] produced(
                event,
                true,
                omit_anonymous_contexts,
            )[i]).body !is Index && produced(event, true, omit_anonymous_contexts)[i].context
                == event.context,
        forall|i: int|
            0 <= i < produced(event, false, omit_anonymous_contexts).len() ==> (#[trigger] produced(
                event,
                false,
                omit_anonymous_contexts,
            )[i]).body !is Index,
{
}

/// The queue takes what it is offered in the order of the offers: behind what
/// waited stands a head of what was offered, and what found no room is its
/// tail.
pub proof fn lemma_offers_keep_their_order(
    dispatcher: DispatcherView,
    events: Seq<QueuedEventView>,
)
    requires
        dispatcher.outbox.len() <= dispatcher.capacity,
    ensures
        dispatcher.offer_all(events).outbox == dispatcher.outbox + events.take(
            dispatcher.offer_all(events).outbox.len() - dispatcher.outbox.len(),
        ),
        dispatcher.outbox.len() <= dispatcher.offer_all(events).outbox.len()
            <= dispatcher.outbox.len() + events.len(),
    decreases events.len(),
{
    if events.len() == 0 {
        assert(dispatcher.outbox + events.take(0) =~= dispatcher.outbox);
    } else {
        let earlier = events.drop_last();
        lemma_offers_keep_their_order(dispatcher, earlier);
        lemma_offered_is_queued_or_dropped(dispatcher, earlier);
        let before = dispatcher.offer_all(earlier);
        let taken = before.outbox.len() - dispatcher.outbox.len();
        if before.outbox.len() < before.capacity {
            assert(taken == earlier.len());
            assert(earlier.take(taken) =~= earlier);
            assert(events.take(taken + 1) =~= events);
            assert(before.outbox.push(events.last()) =~= dispatcher.outbox + events);
        } else {
            assert(events.take(taken) =~= earlier.take(taken));
        }
    }
}

} // verus!
