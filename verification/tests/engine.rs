use opentelemetry::metrics::MeterProvider;
use opentelemetry::trace::TracerProvider;
use opentelemetry::{KeyValue, Value};
use opentelemetry_sdk::metrics::SdkMeterProvider;
use opentelemetry_sdk::trace::{InMemorySpanExporter, SdkTracerProvider, SpanData};
use sregame::engine::{Instrumentation, InstrumentationPlugin};
use sregame::instrumentation::{CompletionKind, GameTracer, Position};
use sregame::metrics::{GameMeter, Instrument, MetricError};

struct Rig {
    _tracers: SdkTracerProvider,
    _meters: SdkMeterProvider,
    exporter: InMemorySpanExporter,
    engine: Instrumentation,
}

fn rig() -> Rig {
    let exporter = InMemorySpanExporter::default();
    let tracers = SdkTracerProvider::builder().with_simple_exporter(exporter.clone()).build();
    let meters = SdkMeterProvider::builder().build();
    let plugin = InstrumentationPlugin {
        tracer: GameTracer::new(tracers.tracer("sregame")),
        meter: GameMeter::new(meters.meter("sregame")),
    };
    Rig { _tracers: tracers, _meters: meters, exporter, engine: Instrumentation::new(plugin) }
}

fn finished(exporter: &InMemorySpanExporter, name: &str) -> Vec<SpanData> {
    exporter.get_finished_spans().unwrap().into_iter().filter(|s| s.name == name).collect()
}

fn attr(attrs: &[KeyValue], key: &str) -> Option<Value> {
    attrs.iter().find(|kv| kv.key.as_str() == key).map(|kv| kv.value.clone())
}

fn span_id(s: &SpanData) -> u64 {
    u64::from_be_bytes(s.span_context.span_id().to_bytes())
}

fn parent_id(s: &SpanData) -> u64 {
    u64::from_be_bytes(s.parent_span_id.to_bytes())
}

#[test]
fn session_starts_once() {
    let mut r = rig();
    assert!(!r.engine.has_session());
    assert!(r.engine.session_context().is_none());
    assert!(r.engine.on_session_start("0.1.0"));
    assert!(r.engine.has_session());
    assert!(!r.engine.on_session_start("0.2.0"));
    assert!(r.engine.session_context().is_some());
    assert!(r.engine.on_session_end().is_some());
    assert!(!r.engine.has_session());
    assert!(r.engine.on_session_end().is_none());
    let sessions = finished(&r.exporter, "game_session");
    assert_eq!(sessions.len(), 1);
    assert_eq!(parent_id(&sessions[0]), 0);
    assert_eq!(attr(&sessions[0].attributes, "game.version"), Some(Value::from("0.1.0")));
    assert!(matches!(attr(&sessions[0].attributes, "session.start_time"), Some(Value::String(_))));
}

#[test]
fn interaction_needs_a_session() {
    let mut r = rig();
    assert!(r.engine.on_interaction_start("Mando", Position { x: 0, y: 0 }, 40).is_none());
    assert_eq!(r.engine.summary(Instrument::InteractionsTotal).sum, 0);
    assert!(finished(&r.exporter, "npc.interaction").is_empty());
}

#[test]
fn interaction_then_dialogue_is_parented_to_the_interaction() {
    let mut r = rig();
    r.engine.on_session_start("0.1.0");
    let token = r.engine.on_interaction_start("Mando", Position { x: 12, y: 34 }, 40).unwrap();
    assert_eq!(token.npc_name, "Mando");
    let interaction_id = token.span_context();
    let parent = token.as_context();
    let ended = r.engine.on_interaction_end(token);
    assert_eq!(ended.npc_name, "Mando");
    assert!(r.engine.on_dialogue_start(&parent, "Mando", 3));
    assert!(r.engine.has_active_dialogue());
    let done = r.engine.on_dialogue_end_after(1000, false).unwrap();
    assert_eq!(done.completion, CompletionKind::Normal);
    let session = r.engine.on_session_end().unwrap();
    drop(session);

    let s = &finished(&r.exporter, "game_session")[0];
    let i = &finished(&r.exporter, "npc.interaction")[0];
    let d = &finished(&r.exporter, "dialogue.session")[0];
    assert_eq!(parent_id(i), span_id(s));
    assert_eq!(span_id(i), interaction_id.span_id);
    assert_eq!(parent_id(d), span_id(i));
    assert_ne!(parent_id(d), span_id(s));
    assert_eq!(d.span_context.trace_id(), s.span_context.trace_id());
    assert_eq!(attr(&i.attributes, "interaction.distance"), Some(Value::I64(40)));
    assert_eq!(r.engine.summary(Instrument::InteractionsTotal).sum, 1);
    assert_eq!(r.engine.summary(Instrument::InteractionDuration).count, 1);
}

#[test]
fn dialogue_read_to_the_end() {
    let mut r = rig();
    r.engine.on_session_start("0.1.0");
    let cx = r.engine.session_context().unwrap();
    assert!(r.engine.on_dialogue_start(&cx, "Evie", 3));
    for index in 0..3 {
        for _ in 0..15 {
            assert!(r.engine.on_dialogue_chars(1));
        }
        assert!(r.engine.on_dialogue_line_complete("fifteen chars!!", index));
    }
    let ended = r.engine.on_dialogue_end_after(6000, false).unwrap();
    assert_eq!(ended.chars_read, 45);
    assert_eq!(ended.reading_speed_milli, 7500);
    assert_eq!(ended.completion, CompletionKind::Normal);
    assert_eq!(ended.speaker, "Evie");
    assert!(!r.engine.has_active_dialogue());
    assert_eq!(r.engine.summary(Instrument::DialogueLinesRead).sum, 3);
    let speed = r.engine.summary(Instrument::DialogueReadingSpeed);
    assert_eq!((speed.count, speed.sum), (1, 7500));
    let spans = finished(&r.exporter, "dialogue.session");
    assert_eq!(spans.len(), 1);
    assert_eq!(spans[0].events.len(), 5);
    assert_eq!(attr(&spans[0].attributes, "dialogue.reading_speed_milli"), Some(Value::I64(7500)));
}

#[test]
fn dialogue_left_by_force() {
    let mut r = rig();
    r.engine.on_session_start("0.1.0");
    let cx = r.engine.session_context().unwrap();
    r.engine.on_dialogue_start(&cx, "Evie", 3);
    r.engine.on_dialogue_chars(10);
    r.engine.on_dialogue_line_complete("ten chars!", 0);
    let ended = r.engine.on_dialogue_end_after(2000, true).unwrap();
    assert_eq!(ended.chars_read, 10);
    assert_eq!(ended.completion, CompletionKind::Forced);
    assert_eq!(ended.reading_speed_milli, 5000);
    let spans = finished(&r.exporter, "dialogue.session");
    assert_eq!(spans.len(), 1);
    let closing = spans[0].events.iter().last().unwrap();
    assert_eq!(closing.name, "dialogue.forced_exit");
    assert_eq!(attr(&closing.attributes, "cleanup.type"), Some(Value::from("forced")));
    assert_eq!(attr(&spans[0].attributes, "dialogue.chars_read"), Some(Value::I64(10)));
}

#[test]
fn every_dialogue_is_ended_exactly_once() {
    let mut r = rig();
    r.engine.on_session_start("0.1.0");
    let cx = r.engine.session_context().unwrap();
    for round in 0..4 {
        assert!(r.engine.on_dialogue_start(&cx, "Evie", 1));
        assert!(!r.engine.on_dialogue_start(&cx, "Other", 9));
        assert_eq!(finished(&r.exporter, "dialogue.session").len(), round);
        let forced = round % 2 == 1;
        let ended = r.engine.on_dialogue_end_after(10, forced);
        assert_eq!(ended.map(|e| e.speaker), Some("Evie".to_string()));
        assert!(r.engine.on_dialogue_end_after(10, forced).is_none());
        assert!(r.engine.on_dialogue_end(forced).is_none());
        assert_eq!(finished(&r.exporter, "dialogue.session").len(), round + 1);
    }
    let spans = finished(&r.exporter, "dialogue.session");
    let mut ids: Vec<u64> = spans.iter().map(span_id).collect();
    ids.sort();
    ids.dedup();
    assert_eq!(ids.len(), 4);
    assert!(spans.iter().all(|s| attr(&s.attributes, "dialogue.speaker") == Some(Value::from("Evie"))));
    assert_eq!(r.engine.summary(Instrument::DialogueReadingSpeed).count, 4);
}

#[test]
fn dialogue_events_without_a_dialogue_do_nothing() {
    let mut r = rig();
    assert!(!r.engine.on_dialogue_chars(3));
    assert!(!r.engine.on_dialogue_line_complete("text", 0));
    assert!(r.engine.on_dialogue_end(false).is_none());
    assert_eq!(r.engine.summary(Instrument::DialogueLinesRead).count, 0);
    assert_eq!(r.engine.summary(Instrument::DialogueReadingSpeed).count, 0);
}

#[test]
fn dialogue_ended_by_the_clock_measures_its_own_duration() {
    let mut r = rig();
    r.engine.on_session_start("0.1.0");
    let cx = r.engine.session_context().unwrap();
    r.engine.on_dialogue_start(&cx, "Evie", 1);
    r.engine.on_dialogue_chars(usize::MAX);
    r.engine.on_dialogue_chars(5);
    let ended = r.engine.on_dialogue_end(false).unwrap();
    assert_eq!(ended.chars_read, usize::MAX);
    let expected = if ended.duration_ms == 0 {
        0
    } else {
        (usize::MAX as u128) * 1_000_000 / ended.duration_ms
    };
    assert_eq!(ended.reading_speed_milli, expected);
}

#[test]
fn engine_records_metrics_by_name() {
    let mut r = rig();
    assert_eq!(r.engine.record_metric("game.map_transitions", 2, &Vec::new()), Ok(Instrument::MapTransitions));
    assert_eq!(r.engine.record_metric("nope", 2, &Vec::new()), Err(MetricError::UnknownInstrument));
    assert_eq!(r.engine.summary(Instrument::MapTransitions).sum, 2);
}

#[test]
fn shutdown_ends_the_open_dialogue_by_force_and_then_the_session() {
    let mut r = rig();
    r.engine.on_session_start("0.1.0");
    let cx = r.engine.session_context().unwrap();
    r.engine.on_dialogue_start(&cx, "Evie", 3);
    r.engine.on_dialogue_chars(4);
    let closed = r.engine.shutdown();
    let dialogue = closed.dialogue.unwrap();
    assert_eq!(dialogue.completion, CompletionKind::Forced);
    assert_eq!(dialogue.chars_read, 4);
    assert!(closed.session.is_some());
    assert!(!r.engine.has_active_dialogue());
    assert!(!r.engine.has_session());
    assert_eq!(finished(&r.exporter, "dialogue.session").len(), 1);
    assert_eq!(finished(&r.exporter, "game_session").len(), 1);
    let again = r.engine.shutdown();
    assert!(again.dialogue.is_none());
    assert!(again.session.is_none());
    assert_eq!(r.exporter.get_finished_spans().unwrap().len(), 2);
}
