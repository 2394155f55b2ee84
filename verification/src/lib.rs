//! Game rules of a small wave-survival shooter: actor stats and status effects,
//! effect triggers and how they are applied, class changes, game-state
//! transitions and the descriptions shown to players.
//!
//! Engine work (entity queries, rendering, networking, physics) and every
//! computation on floating-point values is done by the host program; this
//! library holds floating-point quantities by their bit patterns and decides
//! everything that can be decided from them exactly.

pub mod float;
pub mod text;
pub mod state;
pub mod stats;
pub mod actor;
pub mod effect;
pub mod common;
pub mod effect_application;
pub mod effect_descriptions;
pub mod effect_objects;
pub mod effect_instances;
pub mod deaths;
pub mod classes;
pub mod upgrade;
pub mod damage;
pub mod wave;
pub mod player;
pub mod collision;
