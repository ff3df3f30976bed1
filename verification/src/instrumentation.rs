//! The span hierarchy of a play session: session, interaction, dialogue.
//!
//! Each `start_*` function starts a span under an explicit parent context and
//! describes it with attributes; each `describe_*` function is the description
//! alone, on a span that the caller holds. A context is always passed by hand:
//! nothing here reads an ambient one.

use vstd::prelude::*;
use crate::attribute::{
    attribute_views, clamp_i64, count_to_i64, flag_attr, int_attr, text_attr, wide_to_i64,
    Attribute, EventView, SpanEvent,
};
use crate::sdk::{
    child_of, context_ident, context_new, context_with_span, elapsed_millis, instant_now, rfc3339,
    rfc3339_text, span_add_event, span_end, span_identity, span_model, span_set_attribute,
    tracer_start, unix_time_now, SpanIdent, SpanModel,
};
use crate::speed::{reading_speed, reading_speed_milli};
use crate::text::{line_preview, preview, utf8_len};
use opentelemetry::Context;
use opentelemetry_sdk::trace::{SdkTracer, Span};
use std::time::Instant;

verus! {

/// A point of the world, in whole world units.
#[derive(Clone, Copy, Debug, PartialEq, Eq, Structural)]
pub struct Position {
    pub x: i64,
    pub y: i64,
}

/// How a dialogue came to its end.
#[derive(Clone, Copy, Debug, PartialEq, Eq, Structural)]
pub enum CompletionKind {
    /// Every line was read.
    Normal,
    /// The player left before the end.
    Forced,
}

/// The tracer that all spans of the game are started with.
#[derive(Clone)]
pub struct GameTracer {
    tracer: SdkTracer,
}

impl GameTracer {
    /// The tracer of the SDK that this one starts its spans with.
    pub closed spec fn inner(self) -> SdkTracer {
        self.tracer
    }

    /// Wraps the tracer of the SDK.
    pub fn new(tracer: SdkTracer) -> (t: GameTracer)
        ensures
            t.inner() == tracer,
    {
        GameTracer { tracer }
    }

    /// The tracer of the SDK.
    pub fn tracer(&self) -> (t: &SdkTracer)
        ensures
            *t == self.inner(),
    {
        &self.tracer
    }
}

/// The session span with its two attributes.
pub open spec fn session_described(m: SpanModel, start_time: Seq<char>, version: Seq<char>)
    -> SpanModel {
    m.with_attribute(text_attr("session.start_time"@, start_time)).with_attribute(
        text_attr("game.version"@, version),
    )
}

/// A generic player interaction span with its attributes.
pub open spec fn interaction_described(
    m: SpanModel,
    interaction_type: Seq<char>,
    player_pos: Position,
    elapsed_ms: i64,
) -> SpanModel {
    m.with_attribute(int_attr("player.x"@, player_pos.x)).with_attribute(
        int_attr("player.y"@, player_pos.y),
    ).with_attribute(text_attr("interaction.type"@, interaction_type)).with_attribute(
        int_attr("session.elapsed_ms"@, elapsed_ms),
    )
}

/// An NPC interaction span with its attributes.
pub open spec fn npc_interaction_described(
    m: SpanModel,
    npc_name: Seq<char>,
    player_pos: Position,
    distance: i64,
    elapsed_ms: i64,
) -> SpanModel {
    m.with_attribute(text_attr("npc.name"@, npc_name)).with_attribute(
        int_attr("player.x"@, player_pos.x),
    ).with_attribute(int_attr("player.y"@, player_pos.y)).with_attribute(
        int_attr("interaction.distance"@, distance),
    ).with_attribute(int_attr("session.elapsed_ms"@, elapsed_ms))
}

/// A dialogue span with its first two attributes.
pub open spec fn dialogue_described(m: SpanModel, speaker: Seq<char>, line_count: nat)
    -> SpanModel {
    m.with_attribute(text_attr("dialogue.speaker"@, speaker)).with_attribute(
        int_attr("dialogue.total_lines"@, clamp_i64(line_count as int)),
    )
}

/// A map transition span with its attributes.
pub open spec fn map_transition_described(
    m: SpanModel,
    from_map: Seq<char>,
    to_map: Seq<char>,
    player_pos: Position,
    elapsed_ms: i64,
) -> SpanModel {
    m.with_attribute(text_attr("map.from"@, from_map)).with_attribute(
        text_attr("map.to"@, to_map),
    ).with_attribute(int_attr("player.x"@, player_pos.x)).with_attribute(
        int_attr("player.y"@, player_pos.y),
    ).with_attribute(int_attr("session.elapsed_ms"@, elapsed_ms))
}

/// A span with the three attributes that place a line within its dialogue.
pub open spec fn dialogue_context_added(
    m: SpanModel,
    speaker: Seq<char>,
    line_number: nat,
    total_lines: nat,
) -> SpanModel {
    m.with_attribute(text_attr("dialogue.speaker"@, speaker)).with_attribute(
        int_attr("dialogue.line_number"@, clamp_i64(line_number as int)),
    ).with_attribute(int_attr("dialogue.total_lines"@, clamp_i64(total_lines as int)))
}

/// The event that marks a line as fully displayed: its index, its length in
/// bytes and a preview of at most fifty characters.
pub open spec fn line_event(line_text: Seq<char>, index: nat) -> EventView {
    EventView {
        name: "dialogue.line_displayed"@,
        attributes: seq![
            int_attr("line.index"@, clamp_i64(index as int)),
            int_attr("line.length"@, clamp_i64(utf8_len(line_text) as int)),
            text_attr("line.preview"@, line_preview(line_text)),
        ],
    }
}

/// The event that a dialogue span gets when its dialogue is set up.
pub open spec fn dialogue_opened_event(speaker: Seq<char>, line_count: nat) -> EventView {
    EventView {
        name: "dialogue.resources_created"@,
        attributes: seq![
            int_attr("queue.lines"@, clamp_i64(line_count as int)),
            text_attr("queue.speaker"@, speaker),
        ],
    }
}

/// The event that closes a dialogue span, tagged with how the dialogue ended.
pub open spec fn closing_event(kind: CompletionKind, chars_read: nat) -> EventView {
    match kind {
        CompletionKind::Normal => EventView {
            name: "dialogue.resources_removed"@,
            attributes: seq![
                text_attr("cleanup.type"@, "normal"@),
                flag_attr("dialogue.completed"@, true),
            ],
        },
        CompletionKind::Forced => EventView {
            name: "dialogue.forced_exit"@,
            attributes: seq![
                text_attr("cleanup.type"@, "forced"@),
                flag_attr("dialogue.completed"@, false),
                int_attr("chars_read"@, clamp_i64(chars_read as int)),
            ],
        },
    }
}

/// A dialogue span after its dialogue ended: the characters read, the
/// duration and the reading speed as attributes, the closing event, and the
/// span ended.
pub open spec fn dialogue_closed(
    m: SpanModel,
    chars_read: nat,
    duration_ms: nat,
    kind: CompletionKind,
) -> SpanModel {
    m.with_attribute(int_attr("dialogue.chars_read"@, clamp_i64(chars_read as int))).with_attribute(
        int_attr("dialogue.duration_ms"@, clamp_i64(duration_ms as int)),
    ).with_attribute(
        int_attr(
            "dialogue.reading_speed_milli"@,
            clamp_i64(reading_speed_milli(chars_read, duration_ms) as int),
        ),
    ).with_event(closing_event(kind, chars_read)).ended()
}

/// The name of a generic player interaction span.
pub open spec fn interaction_span_name(interaction_type: Seq<char>) -> Seq<char> {
    "player."@ + interaction_type
}

/// The name of the span of a generic player interaction: `player.` and its
/// type.
pub fn interaction_name(interaction_type: &str) -> (name: String)
    ensures
        name@ == interaction_span_name(interaction_type@),
{
    String::from_str("player.").concat(interaction_type)
}

/// Sets the two attributes of a session span: when it started and the
/// version of the game.
pub fn describe_session(span: &mut Span, start_time: &str, version: &str)
    ensures
        span_model(*final(span)) == session_described(
            span_model(*old(span)),
            start_time@,
            version@,
        ),
{
    span_set_attribute(span, Attribute::text("session.start_time", start_time));
    span_set_attribute(span, Attribute::text("game.version", version));
}

/// Sets the attributes of a generic player interaction: where the player
/// stands, the type, and the time since the session started.
pub fn describe_interaction(
    span: &mut Span,
    interaction_type: &str,
    player_pos: Position,
    elapsed_ms: u128,
)
    ensures
        span_model(*final(span)) == interaction_described(
            span_model(*old(span)),
            interaction_type@,
            player_pos,
            clamp_i64(elapsed_ms as int),
        ),
{
    span_set_attribute(span, Attribute::integer("player.x", player_pos.x));
    span_set_attribute(span, Attribute::integer("player.y", player_pos.y));
    span_set_attribute(span, Attribute::text("interaction.type", interaction_type));
    span_set_attribute(span, Attribute::integer("session.elapsed_ms", wide_to_i64(elapsed_ms)));
}

/// Sets the attributes of an NPC interaction: the NPC, where the player
/// stands, how far from the NPC, and the time since the session started.
pub fn describe_npc_interaction(
    span: &mut Span,
    npc_name: &str,
    player_pos: Position,
    distance: i64,
    elapsed_ms: u128,
)
    ensures
        span_model(*final(span)) == npc_interaction_described(
            span_model(*old(span)),
            npc_name@,
            player_pos,
            distance,
            clamp_i64(elapsed_ms as int),
        ),
{
    span_set_attribute(span, Attribute::text("npc.name", npc_name));
    span_set_attribute(span, Attribute::integer("player.x", player_pos.x));
    span_set_attribute(span, Attribute::integer("player.y", player_pos.y));
    span_set_attribute(span, Attribute::integer("interaction.distance", distance));
    span_set_attribute(span, Attribute::integer("session.elapsed_ms", wide_to_i64(elapsed_ms)));
}

/// Sets the first attributes of a dialogue span: the speaker and the number
/// of lines.
pub fn describe_dialogue(span: &mut Span, speaker: &str, line_count: usize)
    ensures
        span_model(*final(span)) == dialogue_described(
            span_model(*old(span)),
            speaker@,
            line_count as nat,
        ),
{
    span_set_attribute(span, Attribute::text("dialogue.speaker", speaker));
    span_set_attribute(span, Attribute::integer("dialogue.total_lines", count_to_i64(line_count)));
}

/// Sets the attributes of a map transition: both maps, where the player
/// stands, and the time since the session started.
pub fn describe_map_transition(
    span: &mut Span,
    from_map: &str,
    to_map: &str,
    player_pos: Position,
    elapsed_ms: u128,
)
    ensures
        span_model(*final(span)) == map_transition_described(
            span_model(*old(span)),
            from_map@,
            to_map@,
            player_pos,
            clamp_i64(elapsed_ms as int),
        ),
{
    span_set_attribute(span, Attribute::text("map.from", from_map));
    span_set_attribute(span, Attribute::text("map.to", to_map));
    span_set_attribute(span, Attribute::integer("player.x", player_pos.x));
    span_set_attribute(span, Attribute::integer("player.y", player_pos.y));
    span_set_attribute(span, Attribute::integer("session.elapsed_ms", wide_to_i64(elapsed_ms)));
}

/// Sets the three attributes that place a line within its dialogue.
pub fn add_dialogue_context(span: &mut Span, speaker: &str, line_number: usize, total_lines: usize)
    ensures
        span_model(*final(span)) == dialogue_context_added(
            span_model(*old(span)),
            speaker@,
            line_number as nat,
            total_lines as nat,
        ),
{
    span_set_attribute(span, Attribute::text("dialogue.speaker", speaker));
    span_set_attribute(span, Attribute::integer("dialogue.line_number", count_to_i64(line_number)));
    span_set_attribute(span, Attribute::integer("dialogue.total_lines", count_to_i64(total_lines)));
}

/// The event for a line that was fully displayed.
pub fn make_line_event(line_text: &str, index: usize) -> (event: SpanEvent)
    ensures
        event@ == line_event(line_text@, index as nat),
{
    let length = line_text.as_bytes().len();
    let attributes = vec![
        Attribute::integer("line.index", count_to_i64(index)),
        Attribute::integer("line.length", count_to_i64(length)),
        Attribute::text("line.preview", preview(line_text).as_str()),
    ];
    let event = SpanEvent { name: String::from_str("dialogue.line_displayed"), attributes };
    assert(event@.attributes =~= line_event(line_text@, index as nat).attributes);
    event
}

/// Adds to an open span the event of a line that was fully displayed; the
/// span stays open.
pub fn record_dialogue_line_event(span: &mut Span, line_text: &str, index: usize)
    ensures
        span_model(*final(span)) == span_model(*old(span)).with_event(
            line_event(line_text@, index as nat),
        ),
{
    span_add_event(span, make_line_event(line_text, index));
}

/// The event that closes a dialogue span.
pub fn make_closing_event(kind: CompletionKind, chars_read: usize) -> (event: SpanEvent)
    ensures
        event@ == closing_event(kind, chars_read as nat),
{
    match kind {
        CompletionKind::Normal => {
            let attributes = vec![
                Attribute::text("cleanup.type", "normal"),
                Attribute::flag("dialogue.completed", true),
            ];
            let event = SpanEvent {
                name: String::from_str("dialogue.resources_removed"),
                attributes,
            };
            assert(event@.attributes =~= closing_event(kind, chars_read as nat).attributes);
            event
        },
        CompletionKind::Forced => {
            let attributes = vec![
                Attribute::text("cleanup.type", "forced"),
                Attribute::flag("dialogue.completed", false),
                Attribute::integer("chars_read", count_to_i64(chars_read)),
            ];
            let event = SpanEvent { name: String::from_str("dialogue.forced_exit"), attributes };
            assert(event@.attributes =~= closing_event(kind, chars_read as nat).attributes);
            event
        },
    }
}

/// Writes the outcome of a dialogue on its span and ends the span.
pub fn close_dialogue_span(
    span: &mut Span,
    chars_read: usize,
    duration_ms: u128,
    kind: CompletionKind,
)
    ensures
        span_model(*final(span)) == dialogue_closed(
            span_model(*old(span)),
            chars_read as nat,
            duration_ms as nat,
            kind,
        ),
{
    let speed = reading_speed(chars_read, duration_ms);
    span_set_attribute(span, Attribute::integer("dialogue.chars_read", count_to_i64(chars_read)));
    span_set_attribute(span, Attribute::integer("dialogue.duration_ms", wide_to_i64(duration_ms)));
    span_set_attribute(span, Attribute::integer("dialogue.reading_speed_milli", wide_to_i64(speed)));
    span_add_event(span, make_closing_event(kind, chars_read));
    span_end(span);
}

/// A dialogue span as `ActiveDialogue::start` leaves it: described, with the
/// event that marks its set-up.
pub open spec fn dialogue_opened(m: SpanModel, speaker: Seq<char>, line_count: nat) -> SpanModel {
    dialogue_described(m, speaker, line_count).with_event(
        dialogue_opened_event(speaker, line_count),
    )
}

/// Setting attributes, adding events and ending a span leave its identity and
/// its parent as they were at its start.
pub proof fn lemma_parent_link_stable(m: SpanModel, a: crate::attribute::AttributeView, e: EventView)
    ensures
        m.with_attribute(a).ident == m.ident,
        m.with_attribute(a).parent_id == m.parent_id,
        m.with_event(e).ident == m.ident,
        m.with_event(e).parent_id == m.parent_id,
        m.ended().ident == m.ident,
        m.ended().parent_id == m.parent_id,
        m.with_attribute(a).recording == m.recording,
        m.with_event(e).recording == m.recording,
        !m.ended().recording,
{
}

/// A recording child started under the context of a span with valid identity
/// names that span as its parent and lies in its trace, whatever happens to
/// the parent afterwards.
pub proof fn lemma_child_names_parent(child: SpanModel, parent: SpanModel, cx: SpanIdent)
    requires
        cx == parent.ident,
        child_of(child, cx),
        child.recording,
        parent.ident.is_valid(),
    ensures
        child.parent_id == parent.ident.span_id,
        child.ident.trace_id == parent.ident.trace_id,
        child.parent_id == parent.ended().ident.span_id,
{
}

/// Starts the span of a generic player interaction under the session. The
/// time since the session started is read from the clock.
pub fn start_interaction_span(
    tracer: &GameTracer,
    session: &PlayerSessionTrace,
    interaction_type: &str,
    player_pos: Position,
) -> (span: Span)
    ensures
        child_of(span_model(span), span_model(session.span).ident),
        exists|base: SpanModel, elapsed_ms: i64|
            child_of(base, span_model(session.span).ident) && span_model(span)
                == #[trigger] interaction_described(base, interaction_type@, player_pos, elapsed_ms),
{
    let context = session.as_context();
    let mut span = tracer_start(tracer.tracer(), interaction_name(interaction_type), &context);
    let ghost base = span_model(span);
    let elapsed = session.elapsed_ms();
    describe_interaction(&mut span, interaction_type, player_pos, elapsed);
    assert(span_model(span) == interaction_described(
        base,
        interaction_type@,
        player_pos,
        clamp_i64(elapsed as int),
    ));
    span
}

/// Starts the span of an NPC interaction under the session. The time since
/// the session started is read from the clock.
pub fn start_npc_interaction_span(
    tracer: &GameTracer,
    session: &PlayerSessionTrace,
    npc_name: &str,
    player_pos: Position,
    distance: i64,
) -> (span: Span)
    ensures
        child_of(span_model(span), span_model(session.span).ident),
        exists|base: SpanModel, elapsed_ms: i64|
            child_of(base, span_model(session.span).ident) && span_model(span)
                == #[trigger] npc_interaction_described(
                base,
                npc_name@,
                player_pos,
                distance,
                elapsed_ms,
            ),
{
    let context = session.as_context();
    let mut span = tracer_start(tracer.tracer(), String::from_str("npc.interaction"), &context);
    let ghost base = span_model(span);
    let elapsed = session.elapsed_ms();
    describe_npc_interaction(&mut span, npc_name, player_pos, distance, elapsed);
    assert(span_model(span) == npc_interaction_described(
        base,
        npc_name@,
        player_pos,
        distance,
        clamp_i64(elapsed as int),
    ));
    span
}

/// Starts the span of a dialogue under the context that is handed in: the
/// caller says which span is the parent, nothing is looked up.
pub fn start_dialogue_span(
    tracer: &GameTracer,
    parent_context: &Context,
    speaker: &str,
    line_count: usize,
) -> (span: Span)
    ensures
        child_of(span_model(span), context_ident(*parent_context)),
        exists|base: SpanModel|
            child_of(base, context_ident(*parent_context)) && span_model(span)
                == #[trigger] dialogue_described(base, speaker@, line_count as nat),
{
    let mut span = tracer_start(
        tracer.tracer(),
        String::from_str("dialogue.session"),
        parent_context,
    );
    let ghost base = span_model(span);
    describe_dialogue(&mut span, speaker, line_count);
    assert(span_model(span) == dialogue_described(base, speaker@, line_count as nat));
    span
}

/// Starts the span of a map transition under the session. The time since
/// the session started is read from the clock.
pub fn start_map_transition_span(
    tracer: &GameTracer,
    session: &PlayerSessionTrace,
    from_map: &str,
    to_map: &str,
    player_pos: Position,
) -> (span: Span)
    ensures
        child_of(span_model(span), span_model(session.span).ident),
        exists|base: SpanModel, elapsed_ms: i64|
            child_of(base, span_model(session.span).ident) && span_model(span)
                == #[trigger] map_transition_described(
                base,
                from_map@,
                to_map@,
                player_pos,
                elapsed_ms,
            ),
{
    let context = session.as_context();
    let mut span = tracer_start(tracer.tracer(), String::from_str("map.transition"), &context);
    let ghost base = span_model(span);
    let elapsed = session.elapsed_ms();
    describe_map_transition(&mut span, from_map, to_map, player_pos, elapsed);
    assert(span_model(span) == map_transition_described(
        base,
        from_map@,
        to_map@,
        player_pos,
        clamp_i64(elapsed as int),
    ));
    span
}

/// The text of a reading of the wall clock, in seconds and nanoseconds since
/// the Unix epoch: its RFC 3339 form, or the empty text where the clock gave
/// no reading or one that has no such form.
pub open spec fn start_time_text(reading: Option<(u64, u32)>) -> Seq<char> {
    match reading {
        Some((secs, nanos)) => if secs <= i64::MAX {
            match rfc3339_text(secs as i64, nanos) {
                Some(text) => text,
                None => Seq::<char>::empty(),
            }
        } else {
            Seq::<char>::empty()
        },
        None => Seq::<char>::empty(),
    }
}

/// The start time of a session as text, from a reading of the wall clock.
pub fn session_start_time(reading: Option<(u64, u32)>) -> (text: String)
    ensures
        text@ == start_time_text(reading),
{
    match reading {
        Some((secs, nanos)) => {
            if secs > 0x7fff_ffff_ffff_ffff {
                return String::new();
            }
            match rfc3339(secs as i64, nanos) {
                Some(text) => text,
                None => String::new(),
            }
        },
        None => String::new(),
    }
}

/// The root span of one play session, from start to exit, with the context
/// that its children start under.
pub struct PlayerSessionTrace {
    pub span: Span,
    pub context: Context,
    pub session_start: Instant,
}

impl PlayerSessionTrace {
    /// The session was just started: its span is a root described with a
    /// start time and `version`, and its context carries that span.
    pub open spec fn fresh(self, version: Seq<char>) -> bool {
        &&& context_ident(self.context) == span_model(self.span).ident
        &&& child_of(span_model(self.span), SpanIdent::none())
        &&& exists|base: SpanModel, reading: Option<(u64, u32)>|
            child_of(base, SpanIdent::none()) && span_model(self.span)
                == #[trigger] session_described(base, start_time_text(reading), version)
    }

    /// Starts the session span as a root, stamped with the wall clock and the
    /// given version of the game.
    pub fn new(tracer: &GameTracer, version: &str) -> (session: PlayerSessionTrace)
        ensures
            session.fresh(version@),
    {
        let root = context_new();
        let mut span = tracer_start(tracer.tracer(), String::from_str("game_session"), &root);
        let ghost base = span_model(span);
        let reading = unix_time_now();
        let start_time = session_start_time(reading);
        describe_session(&mut span, start_time.as_str(), version);
        assert(span_model(span) == session_described(base, start_time_text(reading), version@));
        let context = context_with_span(&span);
        PlayerSessionTrace { span, context, session_start: instant_now() }
    }

    /// The identity of the span.
    pub fn span_context(&self) -> (id: SpanIdent)
        ensures
            id == span_model(self.span).ident,
    {
        span_identity(&self.span)
    }

    /// A context that carries this session's span, for its children to start
    /// under.
    pub fn as_context(&self) -> (cx: Context)
        ensures
            context_ident(cx) == span_model(self.span).ident,
    {
        context_with_span(&self.span)
    }

    /// Milliseconds since the session started, by the clock.
    pub fn elapsed_ms(&self) -> u128 {
        elapsed_millis(&self.session_start)
    }

    /// Ends the session span and hands it back.
    pub fn end(self) -> (span: Span)
        ensures
            span_model(span) == span_model(self.span).ended(),
    {
        let mut span = self.span;
        span_end(&mut span);
        span
    }
}

/// One interaction of the player with an NPC, open until `end`.
pub struct ActiveInteraction {
    pub span: Span,
    pub start_time: Instant,
    pub npc_name: String,
}

/// An interaction that has ended, with how long it took.
pub struct EndedInteraction {
    pub span: Span,
    pub npc_name: String,
    pub duration_ms: u128,
}

impl ActiveInteraction {
    /// Starts the span of an interaction with `npc_name` under the session.
    pub fn begin(
        tracer: &GameTracer,
        session: &PlayerSessionTrace,
        npc_name: &str,
        player_pos: Position,
        distance: i64,
    ) -> (interaction: ActiveInteraction)
        ensures
            interaction.npc_name@ == npc_name@,
            child_of(span_model(interaction.span), span_model(session.span).ident),
            exists|base: SpanModel, elapsed_ms: i64|
                child_of(base, span_model(session.span).ident) && span_model(interaction.span)
                    == #[trigger] npc_interaction_described(
                    base,
                    npc_name@,
                    player_pos,
                    distance,
                    elapsed_ms,
                ),
    {
        let span = start_npc_interaction_span(tracer, session, npc_name, player_pos, distance);
        ActiveInteraction { span, start_time: instant_now(), npc_name: String::from_str(npc_name) }
    }

    /// A context that carries this interaction's span: the parent to hand to
    /// a dialogue that this interaction triggers.
    pub fn as_context(&self) -> (cx: Context)
        ensures
            context_ident(cx) == span_model(self.span).ident,
    {
        context_with_span(&self.span)
    }

    /// The identity of the span.
    pub fn span_context(&self) -> (id: SpanIdent)
        ensures
            id == span_model(self.span).ident,
    {
        span_identity(&self.span)
    }

    /// Ends the interaction's span; the duration is read from the clock.
    pub fn end(self) -> (ended: EndedInteraction)
        ensures
            ended.npc_name@ == self.npc_name@,
            span_model(ended.span) == span_model(self.span).ended(),
    {
        let duration_ms = elapsed_millis(&self.start_time);
        let mut span = self.span;
        span_end(&mut span);
        EndedInteraction { span, npc_name: self.npc_name, duration_ms }
    }
}

/// The one dialogue that is being read, open until it is ended.
pub struct ActiveDialogue {
    pub span: Span,
    pub start_time: Instant,
    pub speaker: String,
    pub total_lines: usize,
    pub chars_read: usize,
}

/// A dialogue that has ended, with what was measured of it.
pub struct EndedDialogue {
    pub span: Span,
    pub speaker: String,
    pub chars_read: usize,
    pub duration_ms: u128,
    pub reading_speed_milli: u128,
    pub completion: CompletionKind,
}

/// Ends a dialogue that lasted `duration_ms`: the outcome is written on its
/// span, the span is ended, and the measurements are handed back.
pub fn end_dialogue(dialogue: ActiveDialogue, duration_ms: u128, kind: CompletionKind) -> (ended:
    EndedDialogue)
    ensures
        ended.speaker@ == dialogue.speaker@,
        ended.chars_read == dialogue.chars_read,
        ended.duration_ms == duration_ms,
        ended.reading_speed_milli == reading_speed_milli(
            dialogue.chars_read as nat,
            duration_ms as nat,
        ),
        ended.completion == kind,
        span_model(ended.span) == dialogue_closed(
            span_model(dialogue.span),
            dialogue.chars_read as nat,
            duration_ms as nat,
            kind,
        ),
{
    let mut span = dialogue.span;
    close_dialogue_span(&mut span, dialogue.chars_read, duration_ms, kind);
    EndedDialogue {
        span,
        speaker: dialogue.speaker,
        chars_read: dialogue.chars_read,
        duration_ms,
        reading_speed_milli: reading_speed(dialogue.chars_read, duration_ms),
        completion: kind,
    }
}

impl ActiveDialogue {
    /// Starts the span of a dialogue under `parent_context` and marks its
    /// set-up with an event. No character has been read yet.
    pub fn start(tracer: &GameTracer, parent_context: &Context, speaker: &str, line_count: usize)
        -> (dialogue: ActiveDialogue)
        ensures
            dialogue.speaker@ == speaker@,
            dialogue.total_lines == line_count,
            dialogue.chars_read == 0,
            child_of(span_model(dialogue.span), context_ident(*parent_context)),
            exists|base: SpanModel|
                child_of(base, context_ident(*parent_context)) && span_model(dialogue.span)
                    == #[trigger] dialogue_opened(base, speaker@, line_count as nat),
    {
        let mut span = tracer_start(
            tracer.tracer(),
            String::from_str("dialogue.session"),
            parent_context,
        );
        let ghost base = span_model(span);
        describe_dialogue(&mut span, speaker, line_count);
        let attributes = vec![
            Attribute::integer("queue.lines", count_to_i64(line_count)),
            Attribute::text("queue.speaker", speaker),
        ];
        let event = SpanEvent { name: String::from_str("dialogue.resources_created"), attributes };
        assert(event@.attributes =~= dialogue_opened_event(
            speaker@,
            line_count as nat,
        ).attributes);
        span_add_event(&mut span, event);
        assert(span_model(span) == dialogue_opened(base, speaker@, line_count as nat));
        ActiveDialogue {
            span,
            start_time: instant_now(),
            speaker: String::from_str(speaker),
            total_lines: line_count,
            chars_read: 0,
        }
    }

    /// Counts `n` more characters as read; the count stops at `usize::MAX`.
    pub fn add_chars(&mut self, n: usize)
        ensures
            final(self).chars_read == if old(self).chars_read + n > usize::MAX {
                usize::MAX
            } else {
                (old(self).chars_read + n) as usize
            },
            final(self).span == old(self).span,
            final(self).start_time == old(self).start_time,
            final(self).speaker == old(self).speaker,
            final(self).total_lines == old(self).total_lines,
    {
        if n > usize::MAX - self.chars_read {
            self.chars_read = usize::MAX;
        } else {
            self.chars_read = self.chars_read + n;
        }
    }

    /// Records that the line `index` was fully displayed.
    pub fn line_complete(&mut self, line_text: &str, index: usize)
        ensures
            span_model(final(self).span) == span_model(old(self).span).with_event(
                line_event(line_text@, index as nat),
            ),
            final(self).start_time == old(self).start_time,
            final(self).speaker == old(self).speaker,
            final(self).total_lines == old(self).total_lines,
            final(self).chars_read == old(self).chars_read,
    {
        record_dialogue_line_event(&mut self.span, line_text, index);
    }

    /// Ends the dialogue now; the duration is read from the clock.
    pub fn finish(self, kind: CompletionKind) -> (ended: EndedDialogue)
        ensures
            ended.speaker@ == self.speaker@,
            ended.chars_read == self.chars_read,
            ended.reading_speed_milli == reading_speed_milli(
                self.chars_read as nat,
                ended.duration_ms as nat,
            ),
            ended.completion == kind,
            span_model(ended.span) == dialogue_closed(
                span_model(self.span),
                self.chars_read as nat,
                ended.duration_ms as nat,
                kind,
            ),
    {
        let duration_ms = elapsed_millis(&self.start_time);
        end_dialogue(self, duration_ms, kind)
    }
}

} // verus!
