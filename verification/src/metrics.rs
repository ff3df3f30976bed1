//! The seven instruments of the game and what was recorded on each.
//!
//! Every recording is handed to the SDK instrument and also summed up here,
//! so that what was recorded can be read back and reasoned about. Values are
//! unsigned integers: frame and system times in microseconds, interaction
//! durations in milliseconds, reading speed in thousandths of a character per
//! second.

use vstd::prelude::*;
use crate::attribute::Attribute;
use crate::sdk::{counter_add, histogram_record, meter_counter, meter_histogram};
use crate::text::str_eq;
use opentelemetry::metrics::{Counter, Histogram, Meter};

verus! {

/// One of the seven instruments.
#[derive(Clone, Copy, Debug, PartialEq, Eq, Structural)]
pub enum Instrument {
    FrameTime,
    SystemExecutionTime,
    DialogueReadingSpeed,
    InteractionDuration,
    InteractionsTotal,
    DialogueLinesRead,
    MapTransitions,
}

impl Instrument {
    /// The three counters; the other four are histograms.
    pub open spec fn is_counter(self) -> bool {
        self == Instrument::InteractionsTotal || self == Instrument::DialogueLinesRead || self
            == Instrument::MapTransitions
    }

    /// The name that the instrument is exported under.
    pub open spec fn name_spec(self) -> Seq<char> {
        match self {
            Instrument::FrameTime => "game.frame_time"@,
            Instrument::SystemExecutionTime => "game.system.execution_time"@,
            Instrument::DialogueReadingSpeed => "game.dialogue.reading_speed"@,
            Instrument::InteractionDuration => "game.interaction.duration"@,
            Instrument::InteractionsTotal => "game.interactions.total"@,
            Instrument::DialogueLinesRead => "game.dialogue_lines_read"@,
            Instrument::MapTransitions => "game.map_transitions"@,
        }
    }

    /// Whether the instrument is a counter.
    pub fn counter(&self) -> (c: bool)
        ensures
            c == self.is_counter(),
    {
        match self {
            Instrument::InteractionsTotal => true,
            Instrument::DialogueLinesRead => true,
            Instrument::MapTransitions => true,
            _ => false,
        }
    }

    /// The name that the instrument is exported under.
    pub fn name(&self) -> (n: &'static str)
        ensures
            n@ == self.name_spec(),
    {
        match self {
            Instrument::FrameTime => "game.frame_time",
            Instrument::SystemExecutionTime => "game.system.execution_time",
            Instrument::DialogueReadingSpeed => "game.dialogue.reading_speed",
            Instrument::InteractionDuration => "game.interaction.duration",
            Instrument::InteractionsTotal => "game.interactions.total",
            Instrument::DialogueLinesRead => "game.dialogue_lines_read",
            Instrument::MapTransitions => "game.map_transitions",
        }
    }

    /// What the instrument measures, in words.
    pub open spec fn description_spec(self) -> Seq<char> {
        match self {
            Instrument::FrameTime => "Frame rendering time in microseconds"@,
            Instrument::SystemExecutionTime => "ECS system execution time in microseconds"@,
            Instrument::DialogueReadingSpeed =>
                "Thousandths of a character per second during dialogue reading"@,
            Instrument::InteractionDuration => "Duration of player interactions in milliseconds"@,
            Instrument::InteractionsTotal => "Total number of player interactions"@,
            Instrument::DialogueLinesRead => "Total number of dialogue lines displayed"@,
            Instrument::MapTransitions => "Total number of map transitions"@,
        }
    }

    /// The unit of a histogram; a counter has none.
    pub open spec fn unit_spec(self) -> Seq<char> {
        match self {
            Instrument::FrameTime => "us"@,
            Instrument::SystemExecutionTime => "us"@,
            Instrument::DialogueReadingSpeed => "mchars/sec"@,
            Instrument::InteractionDuration => "ms"@,
            _ => ""@,
        }
    }

    /// What the instrument measures, in words.
    pub fn description(&self) -> (d: &'static str)
        ensures
            d@ == self.description_spec(),
    {
        match self {
            Instrument::FrameTime => "Frame rendering time in microseconds",
            Instrument::SystemExecutionTime => "ECS system execution time in microseconds",
            Instrument::DialogueReadingSpeed =>
                "Thousandths of a character per second during dialogue reading",
            Instrument::InteractionDuration => "Duration of player interactions in milliseconds",
            Instrument::InteractionsTotal => "Total number of player interactions",
            Instrument::DialogueLinesRead => "Total number of dialogue lines displayed",
            Instrument::MapTransitions => "Total number of map transitions",
        }
    }

    /// The unit of a histogram; a counter has none.
    pub fn unit(&self) -> (u: &'static str)
        ensures
            u@ == self.unit_spec(),
    {
        match self {
            Instrument::FrameTime => "us",
            Instrument::SystemExecutionTime => "us",
            Instrument::DialogueReadingSpeed => "mchars/sec",
            Instrument::InteractionDuration => "ms",
            _ => "",
        }
    }

    /// The instrument that is exported under `name`, if there is one.
    pub fn from_name(name: &str) -> (found: Option<Instrument>)
        ensures
            match found {
                Some(i) => i.name_spec() == name@,
                None => forall|i: Instrument| i.name_spec() != name@,
            },
            forall|i: Instrument| i.name_spec() == name@ ==> found == Some(i),
    {
        let found = if str_eq(name, "game.frame_time") {
            Some(Instrument::FrameTime)
        } else if str_eq(name, "game.system.execution_time") {
            Some(Instrument::SystemExecutionTime)
        } else if str_eq(name, "game.dialogue.reading_speed") {
            Some(Instrument::DialogueReadingSpeed)
        } else if str_eq(name, "game.interaction.duration") {
            Some(Instrument::InteractionDuration)
        } else if str_eq(name, "game.interactions.total") {
            Some(Instrument::InteractionsTotal)
        } else if str_eq(name, "game.dialogue_lines_read") {
            Some(Instrument::DialogueLinesRead)
        } else if str_eq(name, "game.map_transitions") {
            Some(Instrument::MapTransitions)
        } else {
            None
        };
        proof {
            assert forall|i: Instrument| i.name_spec() == name@ implies found == Some(i) by {
                if let Some(k) = found {
                    lemma_instrument_names_differ(i, k);
                }
            }
        }
        found
    }
}

/// No two instruments share a name: an instrument is known by its name.
pub proof fn lemma_instrument_names_differ(a: Instrument, b: Instrument)
    requires
        a.name_spec() == b.name_spec(),
    ensures
        a == b,
{
    reveal_strlit("game.frame_time");
    reveal_strlit("game.system.execution_time");
    reveal_strlit("game.dialogue.reading_speed");
    reveal_strlit("game.interaction.duration");
    reveal_strlit("game.interactions.total");
    reveal_strlit("game.dialogue_lines_read");
    reveal_strlit("game.map_transitions");
    assert("game.frame_time"@.len() == 15);
    assert("game.system.execution_time"@.len() == 26);
    assert("game.dialogue.reading_speed"@.len() == 27);
    assert("game.interaction.duration"@.len() == 25);
    assert("game.interactions.total"@.len() == 23);
    assert("game.dialogue_lines_read"@.len() == 24);
    assert("game.map_transitions"@.len() == 20);
}

/// What was recorded on one instrument: how many values, their sum, the
/// least and the greatest. With no value yet, all four are zero.
#[derive(Clone, Copy, Debug, PartialEq, Eq, Structural)]
pub struct Summary {
    pub count: u64,
    pub sum: u128,
    pub min: u64,
    pub max: u64,
}

impl Summary {
    /// The sum cannot exceed what `count` values can add up to, and least and
    /// greatest are in order.
    pub open spec fn wf(self) -> bool {
        &&& self.sum <= self.count * u64::MAX
        &&& self.min <= self.max
        &&& self.count == 0 ==> self.sum == 0 && self.min == 0 && self.max == 0
    }

    /// The summary of no value.
    pub open spec fn empty() -> Summary {
        Summary { count: 0, sum: 0, min: 0, max: 0 }
    }

    /// One more value can be counted.
    pub open spec fn has_room(self) -> bool {
        self.count < u64::MAX
    }

    /// The summary with `value` recorded.
    pub open spec fn recorded(self, value: u64) -> Summary {
        Summary {
            count: (self.count + 1) as u64,
            sum: (self.sum + value) as u128,
            min: if self.count == 0 || value < self.min {
                value
            } else {
                self.min
            },
            max: if self.count == 0 || value > self.max {
                value
            } else {
                self.max
            },
        }
    }

    /// The summary of no value.
    pub fn new() -> (s: Summary)
        ensures
            s == Summary::empty(),
            s.wf(),
    {
        Summary { count: 0, sum: 0, min: 0, max: 0 }
    }

    /// Whether `wf` holds.
    pub fn is_wf(&self) -> (ok: bool)
        ensures
            ok == self.wf(),
    {
        assert((self.count as u128) * (u64::MAX as u128) <= u64::MAX * u64::MAX) by (nonlinear_arith)
            requires
                0 <= self.count as u128 <= u64::MAX,
        ;
        assert(u64::MAX * u64::MAX <= u128::MAX) by (nonlinear_arith);
        let bound: u128 = (self.count as u128) * (u64::MAX as u128);
        self.sum <= bound && self.min <= self.max && (self.count != 0 || (self.sum == 0 && self.min
            == 0 && self.max == 0))
    }

    /// Records `value` if one more value can be counted, and says whether it
    /// did.
    pub fn record(&mut self, value: u64) -> (done: bool)
        requires
            old(self).wf(),
        ensures
            done == old(self).has_room(),
            done ==> *final(self) == old(self).recorded(value),
            !done ==> *final(self) == *old(self),
            final(self).wf(),
            done ==> final(self).sum == old(self).sum + value,
            done ==> final(self).count == old(self).count + 1,
    {
        if self.count == u64::MAX {
            return false;
        }
        proof {
            lemma_recorded_fits(*self, value);
        }
        if self.count == 0 || value < self.min {
            self.min = value;
        }
        if self.count == 0 || value > self.max {
            self.max = value;
        }
        self.count = self.count + 1;
        self.sum = self.sum + value as u128;
        true
    }
}

/// Recording on a well-formed summary with room overflows nothing and leaves
/// it well-formed.
pub proof fn lemma_recorded_fits(s: Summary, value: u64)
    requires
        s.wf(),
        s.has_room(),
    ensures
        s.sum + value <= u128::MAX,
        s.recorded(value).wf(),
        s.recorded(value).sum == s.sum + value,
        s.recorded(value).count == s.count + 1,
{
    assert(s.sum + value <= (s.count + 1) * u64::MAX) by (nonlinear_arith)
        requires
            s.sum <= s.count * u64::MAX,
            value <= u64::MAX,
    ;
    assert((s.count + 1) * u64::MAX <= u64::MAX * u64::MAX) by (nonlinear_arith)
        requires
            s.count + 1 <= u64::MAX,
    ;
    assert(u64::MAX * u64::MAX <= u128::MAX) by (nonlinear_arith);
}

/// What was recorded does not depend on the order of two recordings.
pub proof fn lemma_record_order_independent(s: Summary, a: u64, b: u64)
    requires
        s.wf(),
        s.count + 2 <= u64::MAX,
    ensures
        s.recorded(a).recorded(b) == s.recorded(b).recorded(a),
{
    lemma_recorded_fits(s, a);
    lemma_recorded_fits(s, b);
    lemma_recorded_fits(s.recorded(a), b);
    lemma_recorded_fits(s.recorded(b), a);
}

/// A recording never lowers the count or the sum, and raises the sum by
/// exactly the value recorded.
pub proof fn lemma_record_never_decreases(s: Summary, value: u64)
    requires
        s.wf(),
        s.has_room(),
    ensures
        s.recorded(value).sum == s.sum + value,
        s.recorded(value).sum >= s.sum,
        s.recorded(value).count > s.count,
        s.recorded(value).max >= s.max,
{
    lemma_recorded_fits(s, value);
}

/// The summaries of the seven instruments.
#[derive(Clone, Copy, Debug, PartialEq, Eq, Structural)]
pub struct MetricTotals {
    pub frame_time: Summary,
    pub system_execution_time: Summary,
    pub dialogue_reading_speed: Summary,
    pub interaction_duration: Summary,
    pub interactions_total: Summary,
    pub dialogue_lines_read: Summary,
    pub map_transitions: Summary,
}

impl MetricTotals {
    /// All seven summaries are well-formed.
    pub open spec fn wf(self) -> bool {
        forall|i: Instrument| (#[trigger] self.of(i)).wf()
    }

    /// Nothing recorded on any instrument.
    pub open spec fn empty() -> MetricTotals {
        MetricTotals {
            frame_time: Summary::empty(),
            system_execution_time: Summary::empty(),
            dialogue_reading_speed: Summary::empty(),
            interaction_duration: Summary::empty(),
            interactions_total: Summary::empty(),
            dialogue_lines_read: Summary::empty(),
            map_transitions: Summary::empty(),
        }
    }

    /// The summary of one instrument.
    pub open spec fn of(self, instrument: Instrument) -> Summary {
        match instrument {
            Instrument::FrameTime => self.frame_time,
            Instrument::SystemExecutionTime => self.system_execution_time,
            Instrument::DialogueReadingSpeed => self.dialogue_reading_speed,
            Instrument::InteractionDuration => self.interaction_duration,
            Instrument::InteractionsTotal => self.interactions_total,
            Instrument::DialogueLinesRead => self.dialogue_lines_read,
            Instrument::MapTransitions => self.map_transitions,
        }
    }

    /// The totals with the summary of one instrument replaced.
    pub open spec fn with(self, instrument: Instrument, s: Summary) -> MetricTotals {
        match instrument {
            Instrument::FrameTime => MetricTotals { frame_time: s, ..self },
            Instrument::SystemExecutionTime => MetricTotals { system_execution_time: s, ..self },
            Instrument::DialogueReadingSpeed => MetricTotals { dialogue_reading_speed: s, ..self },
            Instrument::InteractionDuration => MetricTotals { interaction_duration: s, ..self },
            Instrument::InteractionsTotal => MetricTotals { interactions_total: s, ..self },
            Instrument::DialogueLinesRead => MetricTotals { dialogue_lines_read: s, ..self },
            Instrument::MapTransitions => MetricTotals { map_transitions: s, ..self },
        }
    }

    /// The totals after `value` was recorded on `instrument`: that summary
    /// takes the value if it has room, and nothing else changes.
    pub open spec fn recorded(self, instrument: Instrument, value: u64) -> MetricTotals {
        if self.of(instrument).has_room() {
            self.with(instrument, self.of(instrument).recorded(value))
        } else {
            self
        }
    }

    /// Nothing recorded on any instrument.
    pub fn new() -> (t: MetricTotals)
        ensures
            t == MetricTotals::empty(),
            t.wf(),
    {
        MetricTotals {
            frame_time: Summary::new(),
            system_execution_time: Summary::new(),
            dialogue_reading_speed: Summary::new(),
            interaction_duration: Summary::new(),
            interactions_total: Summary::new(),
            dialogue_lines_read: Summary::new(),
            map_transitions: Summary::new(),
        }
    }

    /// Whether `wf` holds.
    pub fn is_wf(&self) -> (ok: bool)
        ensures
            ok == self.wf(),
    {
        let ok = self.frame_time.is_wf() && self.system_execution_time.is_wf()
            && self.dialogue_reading_speed.is_wf() && self.interaction_duration.is_wf()
            && self.interactions_total.is_wf() && self.dialogue_lines_read.is_wf()
            && self.map_transitions.is_wf();
        proof {
            if ok {
                lemma_wf_from_fields(*self);
            } else if self.wf() {
                lemma_totals_wf_fields(*self);
            }
        }
        ok
    }

    /// The summary of one instrument.
    pub fn get(&self, instrument: Instrument) -> (s: Summary)
        ensures
            s == self.of(instrument),
    {
        match instrument {
            Instrument::FrameTime => self.frame_time,
            Instrument::SystemExecutionTime => self.system_execution_time,
            Instrument::DialogueReadingSpeed => self.dialogue_reading_speed,
            Instrument::InteractionDuration => self.interaction_duration,
            Instrument::InteractionsTotal => self.interactions_total,
            Instrument::DialogueLinesRead => self.dialogue_lines_read,
            Instrument::MapTransitions => self.map_transitions,
        }
    }

    /// Records `value` on `instrument` if its summary has room, and says
    /// whether it did.
    pub fn record(&mut self, instrument: Instrument, value: u64) -> (done: bool)
        requires
            old(self).wf(),
        ensures
            done == old(self).of(instrument).has_room(),
            *final(self) == old(self).recorded(instrument, value),
            final(self).wf(),
    {
        proof {
            lemma_totals_wf_fields(*self);
        }
        let done = match instrument {
            Instrument::FrameTime => self.frame_time.record(value),
            Instrument::SystemExecutionTime => self.system_execution_time.record(value),
            Instrument::DialogueReadingSpeed => self.dialogue_reading_speed.record(value),
            Instrument::InteractionDuration => self.interaction_duration.record(value),
            Instrument::InteractionsTotal => self.interactions_total.record(value),
            Instrument::DialogueLinesRead => self.dialogue_lines_read.record(value),
            Instrument::MapTransitions => self.map_transitions.record(value),
        };
        proof {
            lemma_wf_from_fields(*self);
        }
        done
    }
}

/// Well-formed totals have seven well-formed summaries.
pub proof fn lemma_totals_wf_fields(t: MetricTotals)
    requires
        t.wf(),
    ensures
        t.frame_time.wf(),
        t.system_execution_time.wf(),
        t.dialogue_reading_speed.wf(),
        t.interaction_duration.wf(),
        t.interactions_total.wf(),
        t.dialogue_lines_read.wf(),
        t.map_transitions.wf(),
{
    assert(t.of(Instrument::FrameTime).wf());
    assert(t.of(Instrument::SystemExecutionTime).wf());
    assert(t.of(Instrument::DialogueReadingSpeed).wf());
    assert(t.of(Instrument::InteractionDuration).wf());
    assert(t.of(Instrument::InteractionsTotal).wf());
    assert(t.of(Instrument::DialogueLinesRead).wf());
    assert(t.of(Instrument::MapTransitions).wf());
}

/// Seven well-formed summaries make well-formed totals.
pub proof fn lemma_wf_from_fields(t: MetricTotals)
    requires
        t.frame_time.wf(),
        t.system_execution_time.wf(),
        t.dialogue_reading_speed.wf(),
        t.interaction_duration.wf(),
        t.interactions_total.wf(),
        t.dialogue_lines_read.wf(),
        t.map_transitions.wf(),
    ensures
        t.wf(),
{
}

/// A recording on one instrument never lowers any sum or count, raises the
/// sum of that instrument by exactly the value where it is taken, and leaves
/// every other instrument as it was.
pub proof fn lemma_totals_never_decrease(
    t: MetricTotals,
    instrument: Instrument,
    value: u64,
    other: Instrument,
)
    requires
        t.wf(),
    ensures
        t.recorded(instrument, value).of(other).sum >= t.of(other).sum,
        t.recorded(instrument, value).of(other).count >= t.of(other).count,
        other != instrument ==> t.recorded(instrument, value).of(other) == t.of(other),
        t.of(instrument).has_room() ==> t.recorded(instrument, value).of(instrument).sum == t.of(
            instrument,
        ).sum + value,
        t.recorded(instrument, value).wf(),
{
    lemma_totals_wf_fields(t);
    if t.of(instrument).has_room() {
        lemma_recorded_fits(t.of(instrument), value);
    }
    lemma_wf_from_fields(t.recorded(instrument, value));
}

/// The instruments and what was recorded through them.
pub struct GameMeter {
    meter: Meter,
    frame_time: Histogram<u64>,
    system_execution_time: Histogram<u64>,
    dialogue_reading_speed: Histogram<u64>,
    interaction_duration: Histogram<u64>,
    interactions_total: Counter<u64>,
    dialogue_lines_read: Counter<u64>,
    map_transitions: Counter<u64>,
    totals: MetricTotals,
}

/// Why a value was not recorded.
#[derive(Clone, Copy, Debug, PartialEq, Eq, Structural)]
pub enum MetricError {
    /// No instrument has the name given.
    UnknownInstrument,
    /// The instrument has counted as many values as it can.
    Full,
}

impl GameMeter {
    /// What was recorded so far.
    pub closed spec fn totals(self) -> MetricTotals {
        self.totals
    }

    /// What was recorded is well-formed.
    pub closed spec fn wf(self) -> bool {
        self.totals.wf()
    }

    /// Creates the seven instruments on `meter` and keeps it; nothing is recorded yet.
    pub fn new(meter: Meter) -> (m: GameMeter)
        ensures
            m.wf(),
            m.totals() == MetricTotals::empty(),
            m.meter_of() == meter,
    {
        let frame_time = meter_histogram(
            &meter,
            Instrument::FrameTime.name(),
            Instrument::FrameTime.description(),
            Instrument::FrameTime.unit(),
        );
        let system_execution_time = meter_histogram(
            &meter,
            Instrument::SystemExecutionTime.name(),
            Instrument::SystemExecutionTime.description(),
            Instrument::SystemExecutionTime.unit(),
        );
        let dialogue_reading_speed = meter_histogram(
            &meter,
            Instrument::DialogueReadingSpeed.name(),
            Instrument::DialogueReadingSpeed.description(),
            Instrument::DialogueReadingSpeed.unit(),
        );
        let interaction_duration = meter_histogram(
            &meter,
            Instrument::InteractionDuration.name(),
            Instrument::InteractionDuration.description(),
            Instrument::InteractionDuration.unit(),
        );
        let interactions_total = meter_counter(
            &meter,
            Instrument::InteractionsTotal.name(),
            Instrument::InteractionsTotal.description(),
        );
        let dialogue_lines_read = meter_counter(
            &meter,
            Instrument::DialogueLinesRead.name(),
            Instrument::DialogueLinesRead.description(),
        );
        let map_transitions = meter_counter(
            &meter,
            Instrument::MapTransitions.name(),
            Instrument::MapTransitions.description(),
        );
        GameMeter {
            meter,
            frame_time,
            system_execution_time,
            dialogue_reading_speed,
            interaction_duration,
            interactions_total,
            dialogue_lines_read,
            map_transitions,
            totals: MetricTotals::new(),
        }
    }

    /// The meter that the instruments were created on.
    pub closed spec fn meter_of(self) -> Meter {
        self.meter
    }

    /// Creates the seven instruments on `meter` and goes on from what was
    /// recorded before; none where those totals are not well-formed.
    pub fn resume(meter: Meter, totals: MetricTotals) -> (m: Option<GameMeter>)
        ensures
            m is Some <==> totals.wf(),
            m is Some ==> m->0.wf() && m->0.totals() == totals,
    {
        if !totals.is_wf() {
            return None;
        }
        let mut fresh = GameMeter::new(meter);
        fresh.totals = totals;
        Some(fresh)
    }

    /// What was recorded on one instrument so far.
    pub fn summary(&self, instrument: Instrument) -> (s: Summary)
        ensures
            s == self.totals().of(instrument),
    {
        self.totals.get(instrument)
    }

    /// What was recorded so far, on all seven.
    pub fn snapshot(&self) -> (t: MetricTotals)
        ensures
            t == self.totals(),
            t.wf() == self.wf(),
    {
        self.totals
    }

    /// Records `value` with `labels` on `instrument`: summed up here and
    /// handed to the SDK. Where the instrument has counted all it can,
    /// nothing is recorded and nothing is sent.
    pub fn record(&mut self, instrument: Instrument, value: u64, labels: &Vec<Attribute>) -> (done:
        bool)
        requires
            old(self).wf(),
        ensures
            final(self).wf(),
            done == old(self).totals().of(instrument).has_room(),
            final(self).totals() == old(self).totals().recorded(instrument, value),
    {
        if !self.totals.record(instrument, value) {
            return false;
        }
        match instrument {
            Instrument::FrameTime => histogram_record(&self.frame_time, value, labels),
            Instrument::SystemExecutionTime => histogram_record(
                &self.system_execution_time,
                value,
                labels,
            ),
            Instrument::DialogueReadingSpeed => histogram_record(
                &self.dialogue_reading_speed,
                value,
                labels,
            ),
            Instrument::InteractionDuration => histogram_record(
                &self.interaction_duration,
                value,
                labels,
            ),
            Instrument::InteractionsTotal => counter_add(&self.interactions_total, value, labels),
            Instrument::DialogueLinesRead => counter_add(&self.dialogue_lines_read, value, labels),
            Instrument::MapTransitions => counter_add(&self.map_transitions, value, labels),
        }
        true
    }

    /// Records `value` with `labels` on the instrument exported under `name`.
    pub fn record_metric(&mut self, name: &str, value: u64, labels: &Vec<Attribute>) -> (r: Result<
        Instrument,
        MetricError,
    >)
        requires
            old(self).wf(),
        ensures
            final(self).wf(),
            match r {
                Ok(i) => i.name_spec() == name@ && old(self).totals().of(i).has_room()
                    && final(self).totals() == old(self).totals().recorded(i, value),
                Err(MetricError::UnknownInstrument) => (forall|i: Instrument|
                    i.name_spec() != name@) && final(self).totals() == old(self).totals(),
                Err(MetricError::Full) => (exists|i: Instrument|
                    i.name_spec() == name@ && !old(self).totals().of(i).has_room())
                    && final(self).totals() == old(self).totals(),
            },
    {
        match Instrument::from_name(name) {
            None => Err(MetricError::UnknownInstrument),
            Some(instrument) => {
                if self.record(instrument, value, labels) {
                    Ok(instrument)
                } else {
                    Err(MetricError::Full)
                }
            },
        }
    }
}

} // verus!
