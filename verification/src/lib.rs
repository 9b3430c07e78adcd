//! A verified model of a small 2D puzzle game: runes and balls are dragged
//! onto slots and triggers, and collision-driven effects chain through
//! trigger stars toward summoning a donut.
//!
//! The library holds the complete game state and every rule of the game as
//! verified code over plain integer coordinates. An engine shell around it
//! supplies what the rules consume: collision pairs, cursor positions, input
//! edges and asset sizes, all as plain values.

pub mod geom;
pub mod world;
pub mod query;
pub mod scene;
pub mod machine;
pub mod input;
pub mod collide;
