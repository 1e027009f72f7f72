//! The events that enter the pipeline and the events that leave it.

use crate::events::context::{Context, ContextView, RedactedContext, RedactedContextView};
use crate::events::summarizer::{EventSummary, SummaryView};
use crate::migration::{Operation, OriginReport, Stage};
use vstd::prelude::*;

verus! {

/// The text of an optional string.
pub open spec fn text_of(text: Option<String>) -> Option<Seq<char>> {
    match text {
        Some(text) => Some(text@),
        None => None,
    }
}

/// A copy of an optional string.
pub fn copy_text(text: &Option<String>) -> (copy: Option<String>)
    ensures
        text_of(copy) == text_of(*text),
{
    match text {
        Some(text) => Some(text.clone()),
        None => None,
    }
}

/// One evaluation of a flag.
pub struct FeatureRequest {
    /// The key of the flag.
    pub key: String,
    /// The value that the evaluation gave, as JSON text.
    pub value: String,
    pub variation: Option<u64>,
    /// The value that the caller asked to fall back to, as JSON text.
    pub default: String,
    /// Whether the evaluation gave the caller's fallback.
    pub is_default: bool,
    pub version: Option<u64>,
    pub reason: Option<String>,
    /// Whether the evaluation is to be reported as an event of its own.
    pub track_events: bool,
    /// Until when (milliseconds) evaluations of the flag are to be reported in
    /// full for debugging.
    pub debug_events_until_date: Option<u64>,
}

/// A [FeatureRequest] as plain mathematical values.
pub struct FeatureRequestView {
    pub key: Seq<char>,
    pub value: Seq<char>,
    pub variation: Option<u64>,
    pub default: Seq<char>,
    pub is_default: bool,
    pub version: Option<u64>,
    pub reason: Option<Seq<char>>,
    pub track_events: bool,
    pub debug_events_until_date: Option<u64>,
}

impl View for FeatureRequest {
    type V = FeatureRequestView;

    open spec fn view(&self) -> FeatureRequestView {
        FeatureRequestView {
            key: self.key@,
            value: self.value@,
            variation: self.variation,
            default: self.default@,
            is_default: self.is_default,
            version: self.version,
            reason: text_of(self.reason),
            track_events: self.track_events,
            debug_events_until_date: self.debug_events_until_date,
        }
    }
}

impl FeatureRequest {
    /// A second evaluation record that holds the same values.
    pub fn duplicate(&self) -> (copy: Self)
        ensures
            copy@ == self@,
    {
        FeatureRequest {
            key: self.key.clone(),
            value: self.value.clone(),
            variation: self.variation,
            default: self.default.clone(),
            is_default: self.is_default,
            version: self.version,
            reason: copy_text(&self.reason),
            track_events: self.track_events,
            debug_events_until_date: self.debug_events_until_date,
        }
    }
}

/// An event that the application defines.
pub struct Custom {
    pub key: String,
    /// Data that goes with the event, as JSON text.
    pub data: Option<String>,
    /// A number that goes with the event, as JSON text.
    pub metric_value: Option<String>,
}

/// A [Custom] as plain mathematical values.
pub struct CustomView {
    pub key: Seq<char>,
    pub data: Option<Seq<char>>,
    pub metric_value: Option<Seq<char>>,
}

impl View for Custom {
    type V = CustomView;

    open spec fn view(&self) -> CustomView {
        CustomView {
            key: self.key@,
            data: text_of(self.data),
            metric_value: text_of(self.metric_value),
        }
    }
}

impl Custom {
    /// A second custom event that holds the same values.
    pub fn duplicate(&self) -> (copy: Self)
        ensures
            copy@ == self@,
    {
        Custom {
            key: self.key.clone(),
            data: copy_text(&self.data),
            metric_value: copy_text(&self.metric_value),
        }
    }
}

/// What one migration operation did.
pub struct MigrationOp {
    /// The key of the flag that gives the stage.
    pub key: String,
    pub operation: Operation,
    pub default_stage: Stage,
    pub stage: Stage,
    pub old: OriginReport,
    pub new: OriginReport,
    /// Whether the two systems agreed, where they were compared.
    pub consistent: Option<bool>,
}

/// A [MigrationOp] as plain mathematical values.
pub struct MigrationOpView {
    pub key: Seq<char>,
    pub operation: Operation,
    pub default_stage: Stage,
    pub stage: Stage,
    pub old: OriginReport,
    pub new: OriginReport,
    pub consistent: Option<bool>,
}

impl View for MigrationOp {
    type V = MigrationOpView;

    open spec fn view(&self) -> MigrationOpView {
        MigrationOpView {
            key: self.key@,
            operation: self.operation,
            default_stage: self.default_stage,
            stage: self.stage,
            old: self.old,
            new: self.new,
            consistent: self.consistent,
        }
    }
}

impl MigrationOp {
    /// A second report that holds the same values.
    pub fn duplicate(&self) -> (copy: Self)
        ensures
            copy@ == self@,
    {
        MigrationOp {
            key: self.key.clone(),
            operation: self.operation,
            default_stage: self.default_stage,
            stage: self.stage,
            old: self.old,
            new: self.new,
            consistent: self.consistent,
        }
    }
}

/// What an event that enters the pipeline reports.
pub enum InputPayload {
    FeatureRequest(FeatureRequest),
    Identify,
    Custom(Custom),
    Migration(MigrationOp),
}

/// An [InputPayload] as plain mathematical values.
pub enum InputPayloadView {
    FeatureRequest(FeatureRequestView),
    Identify,
    Custom(CustomView),
    Migration(MigrationOpView),
}

impl View for InputPayload {
    type V = InputPayloadView;

    open spec fn view(&self) -> InputPayloadView {
        match self {
            InputPayload::FeatureRequest(request) => InputPayloadView::FeatureRequest(request@),
            InputPayload::Identify => InputPayloadView::Identify,
            InputPayload::Custom(custom) => InputPayloadView::Custom(custom@),
            InputPayload::Migration(op) => InputPayloadView::Migration(op@),
        }
    }
}

/// An event as a call site hands it to the pipeline.
pub struct InputEvent {
    /// When the event was made (milliseconds).
    pub creation_date: u64,
    pub context: Context,
    pub payload: InputPayload,
}

/// An [InputEvent] as plain mathematical values.
pub struct InputEventView {
    pub creation_date: u64,
    pub context: ContextView,
    pub payload: InputPayloadView,
}

impl View for InputEvent {
    type V = InputEventView;

    open spec fn view(&self) -> InputEventView {
        InputEventView {
            creation_date: self.creation_date,
            context: self.context@,
            payload: self.payload@,
        }
    }
}

/// What an event that waits for delivery reports.
pub enum EventBody {
    /// The full context, sent when the context is first seen.
    Index,
    Identify,
    Feature(FeatureRequest),
    /// An evaluation reported in full for debugging.
    Debug(FeatureRequest),
    Custom(Custom),
    MigrationOp(MigrationOp),
}

/// An [EventBody] as plain mathematical values.
pub enum EventBodyView {
    Index,
    Identify,
    Feature(FeatureRequestView),
    Debug(FeatureRequestView),
    Custom(CustomView),
    MigrationOp(MigrationOpView),
}

impl View for EventBody {
    type V = EventBodyView;

    open spec fn view(&self) -> EventBodyView {
        match self {
            EventBody::Index => EventBodyView::Index,
            EventBody::Identify => EventBodyView::Identify,
            EventBody::Feature(request) => EventBodyView::Feature(request@),
            EventBody::Debug(request) => EventBodyView::Debug(request@),
            EventBody::Custom(custom) => EventBodyView::Custom(custom@),
            EventBody::MigrationOp(op) => EventBodyView::MigrationOp(op@),
        }
    }
}

impl EventBody {
    /// A second body that holds the same values.
    pub fn duplicate(&self) -> (copy: Self)
        ensures
            copy@ == self@,
    {
        match self {
            EventBody::Index => EventBody::Index,
            EventBody::Identify => EventBody::Identify,
            EventBody::Feature(request) => EventBody::Feature(request.duplicate()),
            EventBody::Debug(request) => EventBody::Debug(request.duplicate()),
            EventBody::Custom(custom) => EventBody::Custom(custom.duplicate()),
            EventBody::MigrationOp(op) => EventBody::MigrationOp(op.duplicate()),
        }
    }
}

/// An event that waits in the pipeline for the next flush.
pub struct QueuedEvent {
    pub creation_date: u64,
    pub context: Context,
    pub body: EventBody,
}

/// A [QueuedEvent] as plain mathematical values.
pub struct QueuedEventView {
    pub creation_date: u64,
    pub context: ContextView,
    pub body: EventBodyView,
}

impl View for QueuedEvent {
    type V = QueuedEventView;

    open spec fn view(&self) -> QueuedEventView {
        QueuedEventView {
            creation_date: self.creation_date,
            context: self.context@,
            body: self.body@,
        }
    }
}

/// What a list of waiting events holds.
pub open spec fn queued_view(events: Seq<QueuedEvent>) -> Seq<QueuedEventView> {
    events.map_values(|event: QueuedEvent| event@)
}

/// An event as it is delivered.
pub enum OutputEvent {
    /// An event about one context, which is written without its private
    /// attributes.
    Event { creation_date: u64, context: RedactedContext, body: EventBody },
    /// The evaluations counted since the last flush.
    Summary(EventSummary),
}

/// An [OutputEvent] as plain mathematical values.
pub enum OutputEventView {
    Event { creation_date: u64, context: RedactedContextView, body: EventBodyView },
    Summary(SummaryView),
}

impl View for OutputEvent {
    type V = OutputEventView;

    open spec fn view(&self) -> OutputEventView {
        match self {
            OutputEvent::Event { creation_date, context, body } => OutputEventView::Event {
                creation_date: *creation_date,
                context: context@,
                body: body@,
            },
            OutputEvent::Summary(summary) => OutputEventView::Summary(summary@),
        }
    }
}

/// What a batch of events holds.
pub open spec fn batch_view(events: Seq<OutputEvent>) -> Seq<OutputEventView> {
    events.map_values(|event: OutputEvent| event@)
}

} // verus!
