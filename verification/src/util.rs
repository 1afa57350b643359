//! Utility function to handle calling the various functions needed to get
//! the game going.

use crate::map_state::{AssetId, MapState};
use vstd::prelude::*;

verus! {

/// Starts the game: points the map state at the map asset that the engine
/// has begun loading. The engine side then spawns the player and moves the
/// map into its loading state.
pub fn start_game(map_state: &mut MapState, map_handle: AssetId)
    ensures
        final(map_state).handle == map_handle,
        final(map_state).textures == old(map_state).textures,
        final(map_state).texture_atlases == old(map_state).texture_atlases,
        final(map_state).texture_maps == old(map_state).texture_maps,
        final(map_state).current_level == old(map_state).current_level,
        final(map_state).levels == old(map_state).levels,
{
    map_state.handle = map_handle;
}

} // verus!
