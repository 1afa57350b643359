//! Utilities for the map module: conversion between map coordinates and
//! world coordinates.
//!
//! A map coordinate counts rows downward from the top of the map, while a
//! world coordinate counts rows upward from the bottom, so the conversion
//! reflects the row index over the map's height.

use crate::map_model::TiledMap;
use vstd::prelude::*;

verus! {

/// What the conversion computes: the row reflected over a map of the given
/// height.
pub open spec fn spec_world_cord(height: u32, cord: u32) -> int {
    height - 1 - cord
}

/// Converts the provided map coordinate to a world coordinate based upon
/// the provided map.
///
/// The input is a map style coordinate, counted from the top; the result is
/// a world style coordinate, counted from the bottom. The function only
/// operates on the Y axis and shouldn't be used with any other values.
pub fn map_cord_to_world_cord(map: &TiledMap, cord: u32) -> (world: u32)
    requires
        cord < map.height,
    ensures
        world == spec_world_cord(map.height, cord),
{
    map.height - 1 - cord
}

/// The conversion is a reflection: applying it twice gives back the original
/// row, and the result always stays inside the map.
pub proof fn lemma_world_cord_reflection(height: u32, cord: u32)
    requires
        cord < height,
    ensures
        0 <= spec_world_cord(height, cord) < height,
        spec_world_cord(height, spec_world_cord(height, cord) as u32) == cord,
{
}

} // verus!
