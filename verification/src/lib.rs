//! Core logic of a small 2D action RPG client: the map and level loading
//! plans, the menu flow, the player movement decisions, and the data store.
//!
//! Everything engine-facing (rendering, physics, asset I/O, UI layout) lives
//! outside this crate; this library computes, from plain values, what the
//! engine should do, and proves that those computations match their
//! specifications.

pub mod constants;
pub mod data_store;
pub mod map_asset;
pub mod map_level;
pub mod map_loader;
pub mod map_model;
pub mod map_state;
pub mod map_util;
pub mod menu_state;
pub mod menu_systems;
pub mod player;
pub mod util;
