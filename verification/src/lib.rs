//! Span correlation and metrics aggregation for an event-driven game.
//!
//! Gameplay code reports what happens (a session starts, the player talks to
//! someone, a dialogue line is read) and this crate turns it into a tree of
//! trace spans and a fixed set of metrics. Numbers are integers throughout:
//! positions and distances in whole world units, durations in milliseconds,
//! reading speed in thousandths of a character per second.

pub mod attribute;
pub mod dialogue;
pub mod endpoint;
pub mod engine;
pub mod game_state;
pub mod instrumentation;
pub mod lifecycle;
pub mod map_data;
pub mod metrics;
pub mod npc;
pub mod player;
pub mod sdk;
pub mod speed;
pub mod text;
pub mod tilemap;
