//! The people of the map: which sprite they show and which of them the
//! player is close enough to talk to.

use vstd::prelude::*;
use crate::attribute::{count_to_i64, clamp_i64, int_attr, text_attr, Attribute};
use crate::instrumentation::{GameTracer, Position};
use crate::sdk::{
    child_of, context_new, span_end, span_model, span_set_attribute, tracer_start, SpanIdent,
    SpanModel,
};
use opentelemetry_sdk::trace::Span;

verus! {

/// The way an NPC faces.
#[derive(Clone, Copy, Debug, PartialEq, Eq, Structural)]
pub enum NpcFacing {
    Down,
    Left,
    Right,
    Up,
}

impl NpcFacing {
    /// The row of the character sheet that shows this facing.
    pub open spec fn row(self) -> nat {
        match self {
            NpcFacing::Down => 0,
            NpcFacing::Left => 1,
            NpcFacing::Right => 2,
            NpcFacing::Up => 3,
        }
    }

    /// The row of the character sheet that shows this facing.
    pub fn sprite_row(&self) -> (r: usize)
        ensures
            r == self.row(),
    {
        match self {
            NpcFacing::Down => 0,
            NpcFacing::Left => 1,
            NpcFacing::Right => 2,
            NpcFacing::Up => 3,
        }
    }

    /// The place on a sheet of three by four of the standing frame: the
    /// middle of the row.
    pub fn sprite_index(&self) -> (i: usize)
        ensures
            i == self.row() * 3 + 1,
            i < 12,
    {
        self.sprite_row() * 3 + 1
    }
}

/// An NPC by name, with the way it faces.
pub struct Npc {
    pub name: String,
    pub sprite_facing: NpcFacing,
}

/// What an NPC has to say.
pub struct NpcDialogue {
    pub speaker: String,
    pub portrait_path: String,
    pub lines: Vec<String>,
}

/// From how far an NPC can be talked to, in whole world units, and what to
/// show then.
pub struct Interactable {
    pub radius: u32,
    pub prompt: String,
}

impl Default for Interactable {
    fn default() -> (i: Interactable)
        ensures
            i.radius == 64,
            i.prompt@ == "Press E to talk"@,
    {
        Interactable { radius: 64, prompt: String::from_str("Press E to talk") }
    }
}

/// The square of the distance between two points.
pub open spec fn dist_sq(a: Position, b: Position) -> int {
    (a.x - b.x) * (a.x - b.x) + (a.y - b.y) * (a.y - b.y)
}

/// The square of a difference of two coordinates.
fn diff_squared(a: i64, b: i64) -> (sq: u128)
    ensures
        sq == (a - b) * (a - b),
{
    let d: i128 = a as i128 - b as i128;
    let m: u128 = if d < 0 {
        (-d) as u128
    } else {
        d as u128
    };
    assert(m * m == (a - b) * (a - b)) by (nonlinear_arith)
        requires
            m == a - b || m == -(a - b),
    ;
    assert(m * m <= 0xffff_ffff_ffff_ffff * 0xffff_ffff_ffff_ffff) by (nonlinear_arith)
        requires
            0 <= m <= 0xffff_ffff_ffff_ffff,
    ;
    m * m
}

/// Whether `b` lies within `radius` of `a`, rim included.
pub fn within_radius(a: Position, b: Position, radius: u32) -> (near: bool)
    ensures
        near == (dist_sq(a, b) <= radius * radius),
{
    let dx2 = diff_squared(a.x, b.x);
    let dy2 = diff_squared(a.y, b.y);
    assert((radius as u128) * (radius as u128) <= 0xffff_ffff * 0xffff_ffff) by (nonlinear_arith)
        requires
            0 <= radius as u128 <= 0xffff_ffff,
    ;
    let r2: u128 = (radius as u128) * (radius as u128);
    if dx2 > r2 {
        return false;
    }
    dy2 <= r2 - dx2
}

/// The square of the distance between two points, or `u128::MAX` where it is
/// larger than that.
pub fn distance_squared(a: Position, b: Position) -> (d: u128)
    ensures
        d == if dist_sq(a, b) > u128::MAX {
            u128::MAX as int
        } else {
            dist_sq(a, b)
        },
{
    let dx2 = diff_squared(a.x, b.x);
    let dy2 = diff_squared(a.y, b.y);
    if dy2 > u128::MAX - dx2 {
        u128::MAX
    } else {
        dx2 + dy2
    }
}

/// `i` is the first place of a least value of `distances`.
pub open spec fn is_closest(distances: Seq<u128>, i: int) -> bool {
    &&& 0 <= i < distances.len()
    &&& forall|j: int| 0 <= j < distances.len() ==> distances[i] <= distances[j]
    &&& forall|j: int| 0 <= j < i ==> distances[j] > distances[i]
}

/// The first of the nearest: the place of the least distance, the earliest
/// one on a tie; none where there is no distance at all.
pub fn closest(distances: &Vec<u128>) -> (best: Option<usize>)
    ensures
        best is None <==> distances@.len() == 0,
        best is Some ==> is_closest(distances@, best->0 as int),
{
    if distances.len() == 0 {
        return None;
    }
    let mut best: usize = 0;
    let mut i: usize = 1;
    while i < distances.len()
        invariant
            1 <= i <= distances@.len(),
            best < i,
            forall|j: int| 0 <= j < i ==> distances@[best as int] <= distances@[j],
            forall|j: int| 0 <= j < best ==> distances@[j] > distances@[best as int],
        decreases distances@.len() - i,
    {
        if distances[i] < distances[best] {
            best = i;
        }
        i += 1;
    }
    Some(best)
}

/// The first of the nearest is the only place that `is_closest` holds of.
pub proof fn lemma_closest_unique(distances: Seq<u128>, i: int, j: int)
    requires
        is_closest(distances, i),
        is_closest(distances, j),
    ensures
        i == j,
{
    if i < j {
        assert(distances[i] > distances[j]);
        assert(distances[i] <= distances[j]);
    } else if j < i {
        assert(distances[j] > distances[i]);
        assert(distances[j] <= distances[i]);
    }
}

/// The span that marks an NPC as spawned, with its attributes.
pub open spec fn spawn_described(m: SpanModel, name: Seq<char>, position: Position, sprite: nat)
    -> SpanModel {
    m.with_attribute(text_attr("npc.name"@, name)).with_attribute(
        int_attr("npc.x"@, position.x),
    ).with_attribute(int_attr("npc.y"@, position.y)).with_attribute(
        int_attr("npc.sprite_index"@, clamp_i64(sprite as int)),
    ).ended()
}

/// Describes the span of a spawned NPC and ends it.
pub fn describe_spawn(span: &mut Span, name: &str, position: Position, sprite_index: usize)
    ensures
        span_model(*final(span)) == spawn_described(
            span_model(*old(span)),
            name@,
            position,
            sprite_index as nat,
        ),
{
    span_set_attribute(span, Attribute::text("npc.name", name));
    span_set_attribute(span, Attribute::integer("npc.x", position.x));
    span_set_attribute(span, Attribute::integer("npc.y", position.y));
    span_set_attribute(span, Attribute::integer("npc.sprite_index", count_to_i64(sprite_index)));
    span_end(span);
}

/// Records that an NPC was spawned: a root span that is ended at once.
pub fn record_npc_spawned(tracer: &GameTracer, npc: &Npc, position: Position) -> (span: Span)
    ensures
        !span_model(span).recording,
        exists|base: SpanModel|
            child_of(base, SpanIdent::none()) && span_model(span) == #[trigger] spawn_described(
                base,
                npc.name@,
                position,
                npc.sprite_facing.row() * 3 + 1,
            ),
{
    let root = context_new();
    let mut span = tracer_start(tracer.tracer(), String::from_str("npc.spawned"), &root);
    let ghost base = span_model(span);
    describe_spawn(&mut span, npc.name.as_str(), position, npc.sprite_facing.sprite_index());
    assert(span_model(span) == spawn_described(
        base,
        npc.name@,
        position,
        npc.sprite_facing.row() * 3 + 1,
    ));
    span
}

} // verus!
