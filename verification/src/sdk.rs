//! The boundary to the tracing and metrics SDK.
//!
//! Everything here is believed, not proved: the outside types, the names for
//! what a span and a context hold, and one small function per outside call.

use vstd::prelude::*;
use crate::attribute::{Attribute, AttrValue, AttributeView, EventView, SpanEvent};
use opentelemetry::metrics::{Counter, Histogram, Meter};
use opentelemetry::{Context, KeyValue};
use opentelemetry_sdk::trace::{SdkTracer, Span};
use std::time::Instant;

verus! {

/// A span of the SDK: opaque, known through `span_model` alone.
#[verifier::external_type_specification]
#[verifier::external_body]
pub struct ExSpan(Span);

/// The tracer of the SDK: opaque, with its sampler, its limits and its
/// processors.
#[verifier::external_type_specification]
#[verifier::external_body]
pub struct ExSdkTracer(SdkTracer);

/// A context: opaque, known through `context_ident` alone.
#[verifier::external_type_specification]
#[verifier::external_body]
pub struct ExContext(Context);

/// The meter that instruments are created on: opaque.
#[verifier::external_type_specification]
#[verifier::external_body]
pub struct ExMeter(Meter);

/// A counter of the SDK: an opaque handle.
#[verifier::external_type_specification]
#[verifier::external_body]
#[verifier::reject_recursive_types(T)]
pub struct ExCounter<T>(Counter<T>);

/// A histogram of the SDK: an opaque handle.
#[verifier::external_type_specification]
#[verifier::external_body]
#[verifier::reject_recursive_types(T)]
pub struct ExHistogram<T>(Histogram<T>);

/// A reading of the monotonic clock: opaque.
#[verifier::external_type_specification]
#[verifier::external_body]
pub struct ExInstant(Instant);

/// The identity of a span: the trace it belongs to and its own identifier.
#[derive(Clone, Copy, Debug, PartialEq, Eq, Structural)]
pub struct SpanIdent {
    pub trace_id: u128,
    pub span_id: u64,
}

impl SpanIdent {
    /// Neither identifier is zero.
    pub open spec fn is_valid(self) -> bool {
        self.trace_id != 0 && self.span_id != 0
    }

    /// The identity that no span has.
    pub open spec fn none() -> SpanIdent {
        SpanIdent { trace_id: 0, span_id: 0 }
    }

    /// Whether neither identifier is zero.
    pub fn valid(&self) -> (v: bool)
        ensures
            v == self.is_valid(),
    {
        self.trace_id != 0 && self.span_id != 0
    }
}

/// All that the contracts say of a span.
#[verifier::ext_equal]
pub struct SpanModel {
    /// Whether the span still takes attributes and events: it was sampled in
    /// and has not been ended.
    pub recording: bool,
    /// The trace and span identifiers in the span's own span context.
    pub ident: SpanIdent,
    /// The parent span identifier that a recording span was created with.
    pub parent_id: u64,
    /// The attributes recorded so far, oldest first.
    pub attributes: Seq<AttributeView>,
    /// The events recorded so far, oldest first.
    pub events: Seq<EventView>,
    /// The most attributes that the span keeps.
    pub attribute_cap: nat,
    /// The most events that the span keeps.
    pub event_cap: nat,
    /// The most attributes that the span keeps on one event.
    pub event_attribute_cap: nat,
}

/// What the span holds. An attribute value of a kind that this crate never
/// writes appears as `Foreign`. Of a span that has been ended, the attributes
/// and events are those it was ended with.
pub uninterp spec fn span_model(span: Span) -> SpanModel;

/// The identity of the span that the context carries, or `SpanIdent::none()`.
pub uninterp spec fn context_ident(cx: Context) -> SpanIdent;

impl SpanModel {
    /// The span after one attribute was set on it: appended while the span
    /// records and has room, dropped otherwise.
    pub open spec fn with_attribute(self, a: AttributeView) -> SpanModel {
        if self.recording && self.attributes.len() < self.attribute_cap {
            SpanModel { attributes: self.attributes.push(a), ..self }
        } else {
            self
        }
    }

    /// The event as the span keeps it: its attributes cut to the cap.
    pub open spec fn kept_event(self, e: EventView) -> EventView {
        if e.attributes.len() <= self.event_attribute_cap {
            e
        } else {
            EventView {
                name: e.name,
                attributes: e.attributes.take(self.event_attribute_cap as int),
            }
        }
    }

    /// The span after one event was added to it: appended while the span
    /// records and has room, dropped otherwise.
    pub open spec fn with_event(self, e: EventView) -> SpanModel {
        if self.recording && self.events.len() < self.event_cap {
            SpanModel { events: self.events.push(self.kept_event(e)), ..self }
        } else {
            self
        }
    }

    /// The span after it was ended: it records no more.
    pub open spec fn ended(self) -> SpanModel {
        SpanModel { recording: false, ..self }
    }
}

/// What holds of a span started under a parent with identity `parent`: if it
/// records, it names that parent and lies in its trace; under a parent that is
/// not valid it is a root.
pub open spec fn child_of(m: SpanModel, parent: SpanIdent) -> bool {
    m.recording ==> if parent.is_valid() {
        m.parent_id == parent.span_id && m.ident.trace_id == parent.trace_id
    } else {
        m.parent_id == 0
    }
}

/// `SdkTracer::clone`: another handle to the same tracer.
pub assume_specification[ <SdkTracer as Clone>::clone ](tracer: &SdkTracer) -> (copy: SdkTracer);

/// `Context::new`: a context that carries no span.
#[verifier::external_body]
pub(crate) fn context_new() -> (cx: Context)
    ensures
        context_ident(cx) == SpanIdent::none(),
{
    Context::new()
}

/// `TraceContextExt::with_remote_span_context` on an empty context, given the
/// span's own span context: a context that carries the span's identity.
#[verifier::external_body]
pub(crate) fn context_with_span(span: &Span) -> (cx: Context)
    ensures
        context_ident(cx) == span_model(*span).ident,
{
    let sc = opentelemetry::trace::Span::span_context(span).clone();
    opentelemetry::trace::TraceContextExt::with_remote_span_context(&Context::new(), sc)
}

/// `Span::span_context`, with the two identifiers as integers.
#[verifier::external_body]
pub(crate) fn span_identity(span: &Span) -> (id: SpanIdent)
    ensures
        id == span_model(*span).ident,
{
    let sc = opentelemetry::trace::Span::span_context(span);
    SpanIdent {
        trace_id: u128::from_be_bytes(sc.trace_id().to_bytes()),
        span_id: u64::from_be_bytes(sc.span_id().to_bytes()),
    }
}

/// `Tracer::start_with_context`. The tracer's sampler decides whether the span
/// records and its processors may add to it, so nothing is said of its
/// attributes and events; the parent link is fixed by the SDK itself.
#[verifier::external_body]
pub(crate) fn tracer_start(tracer: &SdkTracer, name: String, parent: &Context) -> (span: Span)
    ensures
        child_of(span_model(span), context_ident(*parent)),
{
    opentelemetry::trace::Tracer::start_with_context(tracer, name, parent)
}

/// `Span::set_attribute`: the attribute is appended if the span records and
/// holds fewer attributes than its cap, and dropped otherwise.
#[verifier::external_body]
pub(crate) fn span_set_attribute(span: &mut Span, attr: Attribute)
    ensures
        span_model(*final(span)) == span_model(*old(span)).with_attribute(attr@),
{
    let kv = match attr.value {
        AttrValue::Int(i) => KeyValue::new(attr.key, i),
        AttrValue::Text(s) => KeyValue::new(attr.key, s),
        AttrValue::Flag(b) => KeyValue::new(attr.key, b),
    };
    opentelemetry::trace::Span::set_attribute(span, kv)
}

/// `Span::add_event`: the event, with its attributes cut to the cap, is
/// appended if the span records and holds fewer events than its cap, and
/// dropped otherwise.
#[verifier::external_body]
pub(crate) fn span_add_event(span: &mut Span, event: SpanEvent)
    ensures
        span_model(*final(span)) == span_model(*old(span)).with_event(event@),
{
    let attrs = event.attributes.into_iter().map(|a| match a.value {
        AttrValue::Int(i) => KeyValue::new(a.key, i),
        AttrValue::Text(s) => KeyValue::new(a.key, s),
        AttrValue::Flag(b) => KeyValue::new(a.key, b),
    }).collect();
    opentelemetry::trace::Span::add_event(span, event.name, attrs)
}

/// `Span::end`: the span records no more; what it held is handed to the
/// exporter and its identity stays.
#[verifier::external_body]
pub(crate) fn span_end(span: &mut Span)
    ensures
        span_model(*final(span)) == span_model(*old(span)).ended(),
{
    opentelemetry::trace::Span::end(span)
}

/// `Meter::u64_counter`, built with a description. The instrument is a handle
/// into the SDK, of which nothing is known here.
#[verifier::external_body]
pub(crate) fn meter_counter(meter: &Meter, name: &'static str, description: &'static str)
    -> Counter<u64> {
    meter.u64_counter(name).with_description(description).build()
}

/// `Meter::u64_histogram`, built with a description and a unit.
#[verifier::external_body]
pub(crate) fn meter_histogram(
    meter: &Meter,
    name: &'static str,
    description: &'static str,
    unit: &'static str,
) -> Histogram<u64> {
    meter.u64_histogram(name).with_description(description).with_unit(unit).build()
}

/// `Counter::add`: hands the amount and the labels to the SDK, which sends
/// nothing back.
#[verifier::external_body]
pub(crate) fn counter_add(counter: &Counter<u64>, amount: u64, labels: &Vec<Attribute>) {
    let attrs: Vec<KeyValue> = labels.iter().map(|a| match &a.value {
        AttrValue::Int(i) => KeyValue::new(a.key.clone(), *i),
        AttrValue::Text(s) => KeyValue::new(a.key.clone(), s.clone()),
        AttrValue::Flag(b) => KeyValue::new(a.key.clone(), *b),
    }).collect();
    counter.add(amount, &attrs)
}

/// `Histogram::record`: hands the value and the labels to the SDK, which
/// sends nothing back.
#[verifier::external_body]
pub(crate) fn histogram_record(histogram: &Histogram<u64>, value: u64, labels: &Vec<Attribute>) {
    let attrs: Vec<KeyValue> = labels.iter().map(|a| match &a.value {
        AttrValue::Int(i) => KeyValue::new(a.key.clone(), *i),
        AttrValue::Text(s) => KeyValue::new(a.key.clone(), s.clone()),
        AttrValue::Flag(b) => KeyValue::new(a.key.clone(), *b),
    }).collect();
    histogram.record(value, &attrs)
}

/// `Instant::now`: the clock, of which nothing is known.
#[verifier::external_body]
pub(crate) fn instant_now() -> Instant {
    Instant::now()
}

/// `Instant::elapsed`, in whole milliseconds: the clock again.
#[verifier::external_body]
pub(crate) fn elapsed_millis(start: &Instant) -> u128 {
    start.elapsed().as_millis()
}

/// `SystemTime::now`, as whole seconds and nanoseconds since the Unix epoch:
/// the wall clock, of which nothing is known. None where the clock is set
/// before the epoch.
#[verifier::external_body]
pub(crate) fn unix_time_now() -> Option<(u64, u32)> {
    match std::time::SystemTime::now().duration_since(std::time::UNIX_EPOCH) {
        Ok(since) => Some((since.as_secs(), since.subsec_nanos())),
        Err(_) => None,
    }
}

/// The RFC 3339 text, in UTC, of the instant that lies `secs` seconds and
/// `nanos` nanoseconds after the Unix epoch; none where the calendar of the
/// time library does not reach that far.
pub uninterp spec fn rfc3339_text(secs: i64, nanos: u32) -> Option<Seq<char>>;

/// `chrono::DateTime::from_timestamp`, written out by `to_rfc3339`.
#[verifier::external_body]
pub(crate) fn rfc3339(secs: i64, nanos: u32) -> (text: Option<String>)
    ensures
        match text {
            Some(t) => rfc3339_text(secs, nanos) == Some(t@),
            None => rfc3339_text(secs, nanos) is None,
        },
{
    chrono::DateTime::from_timestamp(secs, nanos).map(|t| t.to_rfc3339())
}

} // verus!
