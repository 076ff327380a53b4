//! A terminal-rendered simulation toy: a small cast of "hacker" entities
//! sit in a text-mode view while a top-level screen state machine cycles
//! through a splash screen, a planning screen, and a table/seating view.
//!
//! This crate holds the verified core: the entity and world data model,
//! the screen/input state machine with its full transition table, the
//! character-grid render surface, the per-tick driver step, and a plain
//! encoding of the world state. The unverified shell around it owns the
//! real terminal and the asynchronous key source, polls once per tick,
//! and flushes the grid that the core filled.

pub mod codec;
pub mod driver;
pub mod entity;
pub mod machine;
pub mod surface;
pub mod world;
