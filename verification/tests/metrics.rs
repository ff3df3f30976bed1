use opentelemetry::metrics::MeterProvider;
use opentelemetry::{KeyValue, Value};
use opentelemetry_sdk::metrics::data::{AggregatedMetrics, MetricData};
use opentelemetry_sdk::metrics::{InMemoryMetricExporter, PeriodicReader, SdkMeterProvider};
use sregame::attribute::Attribute;
use sregame::metrics::{GameMeter, Instrument, MetricError, MetricTotals, Summary};

fn setup_meter() -> (SdkMeterProvider, InMemoryMetricExporter, GameMeter) {
    let exporter = InMemoryMetricExporter::default();
    let provider = SdkMeterProvider::builder()
        .with_reader(PeriodicReader::builder(exporter.clone()).build())
        .build();
    let meter = GameMeter::new(provider.meter("sregame"));
    (provider, exporter, meter)
}

struct Point {
    attributes: Vec<KeyValue>,
    sum: u64,
    count: u64,
}

struct Exported {
    description: String,
    unit: String,
    monotonic_sum: bool,
    points: Vec<Point>,
}

fn exported(exporter: &InMemoryMetricExporter, name: &str) -> Option<Exported> {
    let mut last = None;
    for rm in exporter.get_finished_metrics().unwrap() {
        for sm in rm.scope_metrics() {
            for m in sm.metrics() {
                if m.name() != name {
                    continue;
                }
                let (monotonic_sum, points) = match m.data() {
                    AggregatedMetrics::U64(MetricData::Sum(s)) => (
                        s.is_monotonic(),
                        s.data_points()
                            .map(|p| Point {
                                attributes: p.attributes().cloned().collect(),
                                sum: p.value(),
                                count: 0,
                            })
                            .collect(),
                    ),
                    AggregatedMetrics::U64(MetricData::Histogram(h)) => (
                        false,
                        h.data_points()
                            .map(|p| Point {
                                attributes: p.attributes().cloned().collect(),
                                sum: p.sum(),
                                count: p.count(),
                            })
                            .collect(),
                    ),
                    other => panic!("unexpected data for {}: {:?}", name, other),
                };
                last = Some(Exported {
                    description: m.description().to_string(),
                    unit: m.unit().to_string(),
                    monotonic_sum,
                    points,
                });
            }
        }
    }
    last
}

#[test]
fn instruments_have_their_names() {
    let all = [
        (Instrument::FrameTime, "game.frame_time", false),
        (Instrument::SystemExecutionTime, "game.system.execution_time", false),
        (Instrument::DialogueReadingSpeed, "game.dialogue.reading_speed", false),
        (Instrument::InteractionDuration, "game.interaction.duration", false),
        (Instrument::InteractionsTotal, "game.interactions.total", true),
        (Instrument::DialogueLinesRead, "game.dialogue_lines_read", true),
        (Instrument::MapTransitions, "game.map_transitions", true),
    ];
    for (instrument, name, counter) in all {
        assert_eq!(instrument.name(), name);
        assert_eq!(instrument.counter(), counter);
        assert_eq!(Instrument::from_name(name), Some(instrument));
        assert!(!instrument.description().is_empty());
        assert_eq!(instrument.unit().is_empty(), counter);
    }
    assert_eq!(Instrument::from_name("game.frame_times"), None);
    assert_eq!(Instrument::from_name(""), None);
    assert_eq!(Instrument::from_name("Game.frame_time"), None);
}

#[test]
fn summary_adds_exactly_what_is_recorded() {
    let mut s = Summary::new();
    assert_eq!(s, Summary { count: 0, sum: 0, min: 0, max: 0 });
    assert!(s.record(5));
    assert_eq!(s, Summary { count: 1, sum: 5, min: 5, max: 5 });
    assert!(s.record(2));
    assert_eq!(s, Summary { count: 2, sum: 7, min: 2, max: 5 });
    assert!(s.record(0));
    assert_eq!(s, Summary { count: 3, sum: 7, min: 0, max: 5 });
    assert!(s.record(u64::MAX));
    assert_eq!(s.sum, 7 + u64::MAX as u128);
    assert_eq!(s.max, u64::MAX);
    assert!(s.is_wf());
}

#[test]
fn summary_does_not_depend_on_the_order() {
    let mut a = Summary::new();
    let mut b = Summary::new();
    for v in [9, 1, 4] {
        a.record(v);
    }
    for v in [4, 9, 1] {
        b.record(v);
    }
    assert_eq!(a, b);
}

#[test]
fn full_summary_takes_no_more() {
    let mut s = Summary { count: u64::MAX, sum: 10, min: 0, max: 10 };
    assert!(s.is_wf());
    assert!(!s.record(1));
    assert_eq!(s, Summary { count: u64::MAX, sum: 10, min: 0, max: 10 });
}

#[test]
fn ill_formed_summaries_are_told_apart() {
    assert!(!Summary { count: 0, sum: 1, min: 0, max: 0 }.is_wf());
    assert!(!Summary { count: 1, sum: 2, min: 3, max: 2 }.is_wf());
    assert!(!Summary { count: 1, sum: u64::MAX as u128 + 1, min: 0, max: 0 }.is_wf());
    assert!(Summary { count: 2, sum: 2 * (u64::MAX as u128), min: 0, max: 0 }.is_wf());
    let mut t = MetricTotals::new();
    assert!(t.is_wf());
    t.map_transitions = Summary { count: 0, sum: 1, min: 0, max: 0 };
    assert!(!t.is_wf());
}

#[test]
fn totals_change_one_instrument_at_a_time() {
    let mut t = MetricTotals::new();
    assert!(t.record(Instrument::InteractionsTotal, 1));
    assert!(t.record(Instrument::InteractionsTotal, 2));
    assert!(t.record(Instrument::FrameTime, 16_700));
    assert_eq!(t.get(Instrument::InteractionsTotal).sum, 3);
    assert_eq!(t.get(Instrument::InteractionsTotal).count, 2);
    assert_eq!(t.get(Instrument::FrameTime), Summary { count: 1, sum: 16_700, min: 16_700, max: 16_700 });
    for other in [
        Instrument::SystemExecutionTime,
        Instrument::DialogueReadingSpeed,
        Instrument::InteractionDuration,
        Instrument::DialogueLinesRead,
        Instrument::MapTransitions,
    ] {
        assert_eq!(t.get(other), Summary::new());
    }
}

#[test]
fn counters_never_decrease_and_add_their_amount() {
    let (_provider, _exporter, mut meter) = setup_meter();
    let mut last = [0u128; 3];
    let counters =
        [Instrument::InteractionsTotal, Instrument::DialogueLinesRead, Instrument::MapTransitions];
    let amounts = [1u64, 0, 7, 1, 1000, 3];
    for (step, amount) in amounts.iter().enumerate() {
        let which = step % 3;
        assert!(meter.record(counters[which], *amount, &Vec::new()));
        for (i, c) in counters.iter().enumerate() {
            let now = meter.summary(*c).sum;
            assert!(now >= last[i]);
            if i == which {
                assert_eq!(now, last[i] + *amount as u128);
            } else {
                assert_eq!(now, last[i]);
            }
            last[i] = now;
        }
    }
    assert_eq!(meter.summary(Instrument::InteractionsTotal).sum, 2);
    assert_eq!(meter.summary(Instrument::DialogueLinesRead).sum, 1000);
    assert_eq!(meter.summary(Instrument::MapTransitions).sum, 10);
    assert!(meter.snapshot().is_wf());
}

#[test]
fn recordings_reach_the_sdk_with_their_labels() {
    let (provider, exporter, mut meter) = setup_meter();
    let evie = vec![Attribute::text("speaker", "Evie")];
    let mando = vec![Attribute::text("speaker", "Mando")];
    meter.record(Instrument::DialogueLinesRead, 1, &evie);
    meter.record(Instrument::DialogueLinesRead, 1, &evie);
    meter.record(Instrument::DialogueLinesRead, 1, &mando);
    meter.record(Instrument::DialogueReadingSpeed, 7500, &evie);
    meter.record(Instrument::DialogueReadingSpeed, 5000, &evie);
    meter.record(Instrument::MapTransitions, 4, &vec![Attribute::integer("n", 2), Attribute::flag("b", true)]);
    provider.force_flush().unwrap();

    let lines = exported(&exporter, "game.dialogue_lines_read").unwrap();
    assert!(lines.monotonic_sum);
    assert_eq!(lines.description, "Total number of dialogue lines displayed");
    assert_eq!(lines.points.len(), 2);
    for p in &lines.points {
        assert_eq!(p.attributes.len(), 1);
        assert_eq!(p.attributes[0].key.as_str(), "speaker");
        if p.attributes[0].value == Value::from("Evie") {
            assert_eq!(p.sum, 2);
        } else {
            assert_eq!(p.attributes[0].value, Value::from("Mando"));
            assert_eq!(p.sum, 1);
        }
    }
    let speed = exported(&exporter, "game.dialogue.reading_speed").unwrap();
    assert_eq!(speed.unit, "mchars/sec");
    assert_eq!(speed.points.len(), 1);
    assert_eq!(speed.points[0].sum, 12_500);
    assert_eq!(speed.points[0].count, 2);
    let transitions = exported(&exporter, "game.map_transitions").unwrap();
    assert_eq!(transitions.points.len(), 1);
    assert_eq!(transitions.points[0].sum, 4);
    let mut attrs = transitions.points[0].attributes.clone();
    attrs.sort_by(|a, b| a.key.as_str().cmp(b.key.as_str()));
    assert_eq!(attrs, vec![KeyValue::new("b", true), KeyValue::new("n", 2i64)]);
    assert!(exported(&exporter, "game.frame_time").is_none());
}

#[test]
fn record_metric_finds_the_instrument_by_name() {
    let (provider, exporter, mut meter) = setup_meter();
    assert_eq!(
        meter.record_metric("game.frame_time", 16_700, &Vec::new()),
        Ok(Instrument::FrameTime)
    );
    assert_eq!(
        meter.record_metric("game.interactions.total", 3, &vec![Attribute::text("type", "npc")]),
        Ok(Instrument::InteractionsTotal)
    );
    assert_eq!(meter.summary(Instrument::FrameTime).sum, 16_700);
    assert_eq!(meter.summary(Instrument::InteractionsTotal).sum, 3);
    provider.force_flush().unwrap();
    let frame = exported(&exporter, "game.frame_time").unwrap();
    assert_eq!(frame.unit, "us");
    assert_eq!(frame.points[0].sum, 16_700);
    assert_eq!(exported(&exporter, "game.interactions.total").unwrap().points[0].sum, 3);
}

#[test]
fn record_metric_refuses_an_unknown_name() {
    let (_provider, _exporter, mut meter) = setup_meter();
    let before = meter.snapshot();
    assert_eq!(
        meter.record_metric("game.no_such_thing", 1, &Vec::new()),
        Err(MetricError::UnknownInstrument)
    );
    assert_eq!(meter.snapshot(), before);
}

#[test]
fn record_metric_refuses_a_full_instrument() {
    let exporter = InMemoryMetricExporter::default();
    let provider = SdkMeterProvider::builder()
        .with_reader(PeriodicReader::builder(exporter.clone()).build())
        .build();
    let mut totals = MetricTotals::new();
    totals.map_transitions = Summary { count: u64::MAX, sum: 12, min: 0, max: 12 };
    let mut meter = GameMeter::resume(provider.meter("sregame"), totals).unwrap();
    assert_eq!(
        meter.record_metric("game.map_transitions", 1, &Vec::new()),
        Err(MetricError::Full)
    );
    assert!(!meter.record(Instrument::MapTransitions, 1, &Vec::new()));
    assert_eq!(meter.snapshot(), totals);
    assert_eq!(meter.record_metric("game.frame_time", 1, &Vec::new()), Ok(Instrument::FrameTime));
    provider.force_flush().unwrap();
    assert!(exported(&exporter, "game.map_transitions").is_none());
}

#[test]
fn resume_refuses_ill_formed_totals() {
    let provider = SdkMeterProvider::builder().build();
    let mut totals = MetricTotals::new();
    totals.frame_time = Summary { count: 0, sum: 5, min: 0, max: 0 };
    assert!(GameMeter::resume(provider.meter("sregame"), totals).is_none());
}
