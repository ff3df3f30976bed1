//! The one object that gameplay code reports to.
//!
//! It owns the tracer, the instruments, the session span and the slot for
//! the one dialogue that can be open. Each gameplay event is one call; parent
//! contexts are handed over explicitly, never looked up.

use vstd::prelude::*;
use crate::attribute::{clamp_u64, wide_to_u64, Attribute};
use crate::instrumentation::{
    dialogue_closed, dialogue_opened, end_dialogue, line_event, npc_interaction_described,
    ActiveDialogue, ActiveInteraction, CompletionKind, EndedDialogue, EndedInteraction,
    GameTracer, PlayerSessionTrace, Position,
};
use crate::metrics::{GameMeter, Instrument, MetricError, MetricTotals, Summary};
use crate::sdk::{child_of, context_ident, elapsed_millis, span_model, SpanModel};
use crate::speed::reading_speed_milli;
use opentelemetry::Context;
use opentelemetry_sdk::trace::Span;

verus! {

/// The tracer and the instruments that an `Instrumentation` is made of.
pub struct InstrumentationPlugin {
    pub tracer: GameTracer,
    pub meter: GameMeter,
}

/// The tracer, the instruments, the session and the dialogue slot.
pub struct Instrumentation {
    tracer: GameTracer,
    meter: GameMeter,
    session: Option<PlayerSessionTrace>,
    dialogue: Option<ActiveDialogue>,
    started: Ghost<nat>,
    ended: Ghost<nat>,
}

/// What a shutdown closed: the dialogue that was still open, and the session.
pub struct Closed {
    pub dialogue: Option<EndedDialogue>,
    pub session: Option<Span>,
}

/// The completion kind that a forced flag stands for.
pub open spec fn kind_of(forced: bool) -> CompletionKind {
    if forced {
        CompletionKind::Forced
    } else {
        CompletionKind::Normal
    }
}

impl Instrumentation {
    /// The session, if one was started and not yet ended.
    pub closed spec fn session(self) -> Option<PlayerSessionTrace> {
        self.session
    }

    /// The dialogue that is open, if one is.
    pub closed spec fn dialogue(self) -> Option<ActiveDialogue> {
        self.dialogue
    }

    /// What was recorded on the instruments so far.
    pub closed spec fn totals(self) -> MetricTotals {
        self.meter.totals()
    }

    /// How many dialogues were started.
    pub closed spec fn dialogues_started(self) -> nat {
        self.started@
    }

    /// How many dialogues were ended.
    pub closed spec fn dialogues_ended(self) -> nat {
        self.ended@
    }

    /// Every dialogue that was started has been ended once, but for the one
    /// that is open.
    pub closed spec fn wf(self) -> bool {
        &&& self.meter.wf()
        &&& self.started@ == self.ended@ + (if self.dialogue is Some {
            1nat
        } else {
            0nat
        })
    }

    /// An engine with no session and no dialogue, on the given tracer and
    /// instruments.
    pub fn new(plugin: InstrumentationPlugin) -> (e: Instrumentation)
        requires
            plugin.meter.wf(),
        ensures
            e.wf(),
            e.session() is None,
            e.dialogue() is None,
            e.totals() == plugin.meter.totals(),
            e.tracer_of() == plugin.tracer,
            e.dialogues_started() == 0,
            e.dialogues_ended() == 0,
    {
        Instrumentation {
            tracer: plugin.tracer,
            meter: plugin.meter,
            session: None,
            dialogue: None,
            started: Ghost(0),
            ended: Ghost(0),
        }
    }

    /// The tracer that spans are started with.
    pub closed spec fn tracer_of(self) -> GameTracer {
        self.tracer
    }

    /// The tracer, for spans that the caller starts directly.
    pub fn tracer(&self) -> (t: &GameTracer)
        ensures
            *t == self.tracer_of(),
    {
        &self.tracer
    }

    /// Whether a session is open.
    pub fn has_session(&self) -> (b: bool)
        ensures
            b == (self.session() is Some),
    {
        self.session.is_some()
    }

    /// Whether a dialogue is open.
    pub fn has_active_dialogue(&self) -> (b: bool)
        ensures
            b == (self.dialogue() is Some),
    {
        self.dialogue.is_some()
    }

    /// What was recorded on one instrument so far.
    pub fn summary(&self, instrument: Instrument) -> (s: Summary)
        ensures
            s == self.totals().of(instrument),
    {
        self.meter.summary(instrument)
    }

    /// The context of the session span, for children that start under it.
    pub fn session_context(&self) -> (cx: Option<Context>)
        ensures
            cx is Some <==> self.session() is Some,
            cx is Some ==> context_ident(cx->0) == span_model(self.session()->0.span).ident,
    {
        match &self.session {
            Some(s) => Some(s.as_context()),
            None => None,
        }
    }

    /// Starts the session span, once. Says whether it did: with a session
    /// already open nothing changes.
    pub fn on_session_start(&mut self, version: &str) -> (began: bool)
        requires
            old(self).wf(),
        ensures
            final(self).wf(),
            began == (old(self).session() is None),
            began ==> final(self).session() is Some && final(self).session()->0.fresh(version@),
            !began ==> final(self).session() == old(self).session(),
            final(self).dialogue() == old(self).dialogue(),
            final(self).totals() == old(self).totals(),
            final(self).dialogues_started() == old(self).dialogues_started(),
            final(self).dialogues_ended() == old(self).dialogues_ended(),
    {
        if self.session.is_some() {
            return false;
        }
        self.session = Some(PlayerSessionTrace::new(&self.tracer, version));
        true
    }

    /// Ends the session span and hands it back, if a session is open.
    pub fn on_session_end(&mut self) -> (ended: Option<Span>)
        requires
            old(self).wf(),
        ensures
            final(self).wf(),
            final(self).session() is None,
            ended is Some <==> old(self).session() is Some,
            ended is Some ==> span_model(ended->0) == span_model(
                old(self).session()->0.span,
            ).ended(),
            final(self).dialogue() == old(self).dialogue(),
            final(self).totals() == old(self).totals(),
            final(self).dialogues_started() == old(self).dialogues_started(),
            final(self).dialogues_ended() == old(self).dialogues_ended(),
    {
        match self.session.take() {
            Some(s) => Some(s.end()),
            None => None,
        }
    }

    /// The player starts to interact with an NPC: a span under the session,
    /// and one more interaction counted. Without a session there is no span
    /// and nothing is counted.
    pub fn on_interaction_start(&mut self, npc_name: &str, player_pos: Position, distance: i64)
        -> (token: Option<ActiveInteraction>)
        requires
            old(self).wf(),
        ensures
            final(self).wf(),
            token is Some <==> old(self).session() is Some,
            final(self).session() == old(self).session(),
            final(self).dialogue() == old(self).dialogue(),
            final(self).dialogues_started() == old(self).dialogues_started(),
            final(self).dialogues_ended() == old(self).dialogues_ended(),
            match token {
                Some(i) => {
                    let parent = span_model(old(self).session()->0.span).ident;
                    &&& i.npc_name@ == npc_name@
                    &&& child_of(span_model(i.span), parent)
                    &&& exists|base: SpanModel, elapsed_ms: i64|
                        child_of(base, parent) && span_model(i.span)
                            == #[trigger] npc_interaction_described(
                            base,
                            npc_name@,
                            player_pos,
                            distance,
                            elapsed_ms,
                        )
                    &&& final(self).totals() == old(self).totals().recorded(
                        Instrument::InteractionsTotal,
                        1,
                    )
                },
                None => final(self).totals() == old(self).totals(),
            },
    {
        match &self.session {
            None => None,
            Some(session) => {
                let token = ActiveInteraction::begin(
                    &self.tracer,
                    session,
                    npc_name,
                    player_pos,
                    distance,
                );
                let labels = vec![Attribute::text("npc.name", npc_name)];
                self.meter.record(Instrument::InteractionsTotal, 1, &labels);
                Some(token)
            },
        }
    }

    /// The interaction is over: its span is ended and its duration, read
    /// from the clock, is recorded.
    pub fn on_interaction_end(&mut self, token: ActiveInteraction) -> (ended: EndedInteraction)
        requires
            old(self).wf(),
        ensures
            final(self).wf(),
            ended.npc_name@ == token.npc_name@,
            span_model(ended.span) == span_model(token.span).ended(),
            final(self).totals() == old(self).totals().recorded(
                Instrument::InteractionDuration,
                clamp_u64(ended.duration_ms as nat),
            ),
            final(self).session() == old(self).session(),
            final(self).dialogue() == old(self).dialogue(),
            final(self).dialogues_started() == old(self).dialogues_started(),
            final(self).dialogues_ended() == old(self).dialogues_ended(),
    {
        let ended = token.end();
        let labels = vec![Attribute::text("npc.name", ended.npc_name.as_str())];
        self.meter.record(Instrument::InteractionDuration, wide_to_u64(ended.duration_ms), &labels);
        ended
    }

    /// A dialogue starts under `parent_context`. Says whether it did: while
    /// another dialogue is open nothing changes.
    pub fn on_dialogue_start(&mut self, parent_context: &Context, speaker: &str, line_count: usize)
        -> (began: bool)
        requires
            old(self).wf(),
        ensures
            final(self).wf(),
            began == (old(self).dialogue() is None),
            final(self).session() == old(self).session(),
            final(self).totals() == old(self).totals(),
            final(self).dialogues_ended() == old(self).dialogues_ended(),
            began ==> {
                let d = final(self).dialogue()->0;
                &&& final(self).dialogue() is Some
                &&& final(self).dialogues_started() == old(self).dialogues_started() + 1
                &&& d.speaker@ == speaker@
                &&& d.total_lines == line_count
                &&& d.chars_read == 0
                &&& child_of(span_model(d.span), context_ident(*parent_context))
                &&& exists|base: SpanModel|
                    child_of(base, context_ident(*parent_context)) && span_model(d.span)
                        == #[trigger] dialogue_opened(base, speaker@, line_count as nat)
            },
            !began ==> final(self).dialogue() == old(self).dialogue()
                && final(self).dialogues_started() == old(self).dialogues_started(),
    {
        if self.dialogue.is_some() {
            return false;
        }
        self.dialogue = Some(ActiveDialogue::start(&self.tracer, parent_context, speaker, line_count));
        self.started = Ghost((self.started@ + 1) as nat);
        true
    }

    /// Counts `n` more characters of the open dialogue as read. Says whether
    /// a dialogue is open.
    pub fn on_dialogue_chars(&mut self, n: usize) -> (noted: bool)
        requires
            old(self).wf(),
        ensures
            final(self).wf(),
            noted == (old(self).dialogue() is Some),
            final(self).session() == old(self).session(),
            final(self).totals() == old(self).totals(),
            final(self).dialogues_started() == old(self).dialogues_started(),
            final(self).dialogues_ended() == old(self).dialogues_ended(),
            noted ==> {
                let before = old(self).dialogue()->0;
                let after = final(self).dialogue()->0;
                &&& final(self).dialogue() is Some
                &&& after.chars_read == if before.chars_read + n > usize::MAX {
                    usize::MAX
                } else {
                    (before.chars_read + n) as usize
                }
                &&& after.span == before.span
                &&& after.speaker == before.speaker
                &&& after.total_lines == before.total_lines
            },
            !noted ==> final(self).dialogue() is None,
    {
        match self.dialogue.take() {
            None => false,
            Some(mut d) => {
                d.add_chars(n);
                self.dialogue = Some(d);
                true
            },
        }
    }

    /// A line of the open dialogue was fully displayed: an event on its span
    /// and one more line counted. Says whether a dialogue is open.
    pub fn on_dialogue_line_complete(&mut self, line_text: &str, index: usize) -> (noted: bool)
        requires
            old(self).wf(),
        ensures
            final(self).wf(),
            noted == (old(self).dialogue() is Some),
            final(self).session() == old(self).session(),
            final(self).dialogues_started() == old(self).dialogues_started(),
            final(self).dialogues_ended() == old(self).dialogues_ended(),
            noted ==> {
                let before = old(self).dialogue()->0;
                let after = final(self).dialogue()->0;
                &&& final(self).dialogue() is Some
                &&& span_model(after.span) == span_model(before.span).with_event(
                    line_event(line_text@, index as nat),
                )
                &&& after.chars_read == before.chars_read
                &&& after.speaker == before.speaker
                &&& after.total_lines == before.total_lines
                &&& final(self).totals() == old(self).totals().recorded(
                    Instrument::DialogueLinesRead,
                    1,
                )
            },
            !noted ==> final(self).dialogue() is None && final(self).totals() == old(
                self,
            ).totals(),
    {
        match self.dialogue.take() {
            None => false,
            Some(mut d) => {
                d.line_complete(line_text, index);
                let labels = vec![Attribute::text("speaker", d.speaker.as_str())];
                self.dialogue = Some(d);
                self.meter.record(Instrument::DialogueLinesRead, 1, &labels);
                true
            },
        }
    }

    /// The open dialogue ends after `duration_ms`, read to its end or left
    /// by force: its span is closed, its reading speed is recorded, and the
    /// slot is free again. With no dialogue open nothing changes.
    pub fn on_dialogue_end_after(&mut self, duration_ms: u128, forced: bool) -> (ended: Option<
        EndedDialogue,
    >)
        requires
            old(self).wf(),
        ensures
            final(self).wf(),
            final(self).dialogue() is None,
            ended is Some <==> old(self).dialogue() is Some,
            final(self).session() == old(self).session(),
            final(self).dialogues_started() == old(self).dialogues_started(),
            match ended {
                Some(e) => {
                    let d = old(self).dialogue()->0;
                    &&& final(self).dialogues_ended() == old(self).dialogues_ended() + 1
                    &&& e.speaker@ == d.speaker@
                    &&& e.chars_read == d.chars_read
                    &&& e.duration_ms == duration_ms
                    &&& e.completion == kind_of(forced)
                    &&& e.reading_speed_milli == reading_speed_milli(
                        d.chars_read as nat,
                        duration_ms as nat,
                    )
                    &&& span_model(e.span) == dialogue_closed(
                        span_model(d.span),
                        d.chars_read as nat,
                        duration_ms as nat,
                        kind_of(forced),
                    )
                    &&& final(self).totals() == old(self).totals().recorded(
                        Instrument::DialogueReadingSpeed,
                        clamp_u64(e.reading_speed_milli as nat),
                    )
                },
                None => final(self).dialogues_ended() == old(self).dialogues_ended()
                    && final(self).totals() == old(self).totals(),
            },
    {
        match self.dialogue.take() {
            None => None,
            Some(d) => {
                let kind = if forced {
                    CompletionKind::Forced
                } else {
                    CompletionKind::Normal
                };
                let ended = end_dialogue(d, duration_ms, kind);
                let labels = vec![Attribute::text("speaker", ended.speaker.as_str())];
                self.meter.record(
                    Instrument::DialogueReadingSpeed,
                    wide_to_u64(ended.reading_speed_milli),
                    &labels,
                );
                self.ended = Ghost((self.ended@ + 1) as nat);
                Some(ended)
            },
        }
    }

    /// The open dialogue ends now; its duration is read from the clock.
    pub fn on_dialogue_end(&mut self, forced: bool) -> (ended: Option<EndedDialogue>)
        requires
            old(self).wf(),
        ensures
            final(self).wf(),
            final(self).dialogue() is None,
            ended is Some <==> old(self).dialogue() is Some,
            final(self).session() == old(self).session(),
            final(self).dialogues_started() == old(self).dialogues_started(),
            match ended {
                Some(e) => {
                    let d = old(self).dialogue()->0;
                    &&& final(self).dialogues_ended() == old(self).dialogues_ended() + 1
                    &&& e.speaker@ == d.speaker@
                    &&& e.chars_read == d.chars_read
                    &&& e.completion == kind_of(forced)
                    &&& e.reading_speed_milli == reading_speed_milli(
                        d.chars_read as nat,
                        e.duration_ms as nat,
                    )
                    &&& span_model(e.span) == dialogue_closed(
                        span_model(d.span),
                        d.chars_read as nat,
                        e.duration_ms as nat,
                        kind_of(forced),
                    )
                    &&& final(self).totals() == old(self).totals().recorded(
                        Instrument::DialogueReadingSpeed,
                        clamp_u64(e.reading_speed_milli as nat),
                    )
                },
                None => final(self).dialogues_ended() == old(self).dialogues_ended()
                    && final(self).totals() == old(self).totals(),
            },
    {
        let duration_ms = match &self.dialogue {
            Some(d) => elapsed_millis(&d.start_time),
            None => 0,
        };
        self.on_dialogue_end_after(duration_ms, forced)
    }

    /// The game exits: a dialogue that is still open is ended as left by
    /// force, then the session span is ended. Afterwards nothing is open and
    /// every dialogue that was started has been ended.
    pub fn shutdown(&mut self) -> (closed: Closed)
        requires
            old(self).wf(),
        ensures
            final(self).wf(),
            final(self).dialogue() is None,
            final(self).session() is None,
            final(self).dialogues_started() == old(self).dialogues_started(),
            final(self).dialogues_started() == final(self).dialogues_ended(),
            closed.dialogue is Some <==> old(self).dialogue() is Some,
            closed.session is Some <==> old(self).session() is Some,
            closed.session is Some ==> span_model(closed.session->0) == span_model(
                old(self).session()->0.span,
            ).ended(),
            match closed.dialogue {
                Some(e) => {
                    let d = old(self).dialogue()->0;
                    &&& e.speaker@ == d.speaker@
                    &&& e.chars_read == d.chars_read
                    &&& e.completion == CompletionKind::Forced
                    &&& e.reading_speed_milli == reading_speed_milli(
                        d.chars_read as nat,
                        e.duration_ms as nat,
                    )
                    &&& span_model(e.span) == dialogue_closed(
                        span_model(d.span),
                        d.chars_read as nat,
                        e.duration_ms as nat,
                        CompletionKind::Forced,
                    )
                    &&& final(self).totals() == old(self).totals().recorded(
                        Instrument::DialogueReadingSpeed,
                        clamp_u64(e.reading_speed_milli as nat),
                    )
                },
                None => final(self).totals() == old(self).totals(),
            },
    {
        let dialogue = self.on_dialogue_end(true);
        let session = self.on_session_end();
        Closed { dialogue, session }
    }

    /// Records `value` with `labels` on the instrument exported under `name`.
    pub fn record_metric(&mut self, name: &str, value: u64, labels: &Vec<Attribute>) -> (r: Result<
        Instrument,
        MetricError,
    >)
        requires
            old(self).wf(),
        ensures
            final(self).wf(),
            final(self).session() == old(self).session(),
            final(self).dialogue() == old(self).dialogue(),
            final(self).dialogues_started() == old(self).dialogues_started(),
            final(self).dialogues_ended() == old(self).dialogues_ended(),
            match r {
                Ok(i) => i.name_spec() == name@ && old(self).totals().of(i).has_room()
                    && final(self).totals() == old(self).totals().recorded(i, value),
                Err(MetricError::UnknownInstrument) => (forall|i: Instrument|
                    i.name_spec() != name@) && final(self).totals() == old(self).totals(),
                Err(MetricError::Full) => (exists|i: Instrument|
                    i.name_spec() == name@ && !old(self).totals().of(i).has_room())
                    && final(self).totals() == old(self).totals(),
            },
    {
        self.meter.record_metric(name, value, labels)
    }
}

/// In every state that the calls above can reach, each dialogue that was
/// started has been ended exactly once, except the one that is still open.
pub proof fn lemma_dialogues_balance(e: Instrumentation)
    requires
        e.wf(),
    ensures
        e.dialogues_started() == e.dialogues_ended() + (if e.dialogue() is Some {
            1nat
        } else {
            0nat
        }),
        e.dialogue() is None ==> e.dialogues_started() == e.dialogues_ended(),
{
}

} // verus!
