//! Loading the current level of a map: turning the level's LDtk layers
//! into a plan of tile sprites to spawn.
//!
//! Handler logic for the [`LevelReadinessState::Loading`] state.

use crate::map_asset::{LdtkLayer, LdtkTile, MapAsset};
use crate::map_state::{spec_atlas_lookup, AssetId, LevelReadinessState, MapState};
use vstd::prelude::*;
use vstd::string::StringExecFns;

verus! {

/// One tile sprite of a level: which atlas it draws from, which texture
/// inside it, where the tile stands on the grid, and whether the player
/// spawns here.
pub struct LevelTileSpawn {
    /// Handle of the texture atlas the sprite draws from
    pub atlas_handle: AssetId,
    /// Index of the texture within the atlas
    pub texture_index: u32,
    /// Column of the tile, counted rightward
    pub grid_x: i32,
    /// Row of the tile in world coordinates, counted upward, so at or
    /// below zero
    pub world_y: i32,
    /// Whether this tile marks where the player spawns
    pub is_player_spawn: bool,
}

/// The plan for loading the current level.
pub struct LevelPlan {
    /// Tile sprites to spawn, in layer order
    pub tiles: Vec<LevelTileSpawn>,
    /// Where the player is moved to: the position of the last player spawn
    /// tile of the level, if there is one
    pub player_spawn: Option<(i32, i32)>,
    /// Tileset identifiers of tile layers whose atlas could not be found;
    /// those layers are skipped
    pub missing_atlases: Vec<i32>,
    /// The state the level moves to, if any: loading a level with layers
    /// finishes in [`LevelReadinessState::Loaded`], while a level without
    /// layers leaves the state alone
    pub next_level_readiness: Option<LevelReadinessState>,
}

/// Whether the layer is a layer of tiles.
pub open spec fn spec_is_tiles(layer: LdtkLayer) -> bool {
    layer.layer_type@ == "Tiles"@
}

/// The number of texture columns recorded for the given atlas handle, if
/// any; the first entry wins.
pub open spec fn spec_columns_lookup(entries: Seq<(AssetId, u32)>, handle: AssetId) -> Option<u32>
    decreases entries.len(),
{
    if entries.len() == 0 {
        Option::None
    } else if entries[0].0 == handle {
        Option::Some(entries[0].1)
    } else {
        spec_columns_lookup(entries.drop_first(), handle)
    }
}

/// The atlas a tile layer draws from: its handle from the map state's
/// registry and its column count from the atlas table, or nothing if
/// either lookup fails.
pub open spec fn spec_layer_atlas(
    state: MapState,
    atlas_columns: Seq<(AssetId, u32)>,
    layer: LdtkLayer,
) -> Option<(AssetId, u32)> {
    match spec_atlas_lookup(state.texture_atlases@, layer.tileset_def_uid->0) {
        Option::None => Option::None,
        Option::Some(handle) => match spec_columns_lookup(atlas_columns, handle) {
            Option::None => Option::None,
            Option::Some(columns) => Option::Some((handle, columns)),
        },
    }
}

/// Index of a tile's texture within its atlas: tiles are 32 pixels square,
/// so the tileset pixel coordinates are scaled down and laid out row by
/// row.
pub open spec fn spec_tile_index(t: LdtkTile, columns: u32) -> int {
    t.src_x as int / 32 + (t.src_y as int / 32) * (columns as int)
}

/// The sprite for one tile of a layer whose atlas has the given handle and
/// column count.
pub open spec fn spec_level_tile(t: LdtkTile, handle: AssetId, columns: u32) -> LevelTileSpawn {
    LevelTileSpawn {
        atlas_handle: handle,
        texture_index: spec_tile_index(t, columns) as u32,
        grid_x: (t.px_x as int / 32) as i32,
        world_y: (0 - t.px_y as int / 32) as i32,
        is_player_spawn: t.t == 2,
    }
}

/// The sprites of the first `j` tiles of a layer.
pub open spec fn spec_layer_tiles(
    tiles: Seq<LdtkTile>,
    handle: AssetId,
    columns: u32,
    j: int,
) -> Seq<LevelTileSpawn>
    decreases j,
{
    if j <= 0 {
        Seq::empty()
    } else {
        spec_layer_tiles(tiles, handle, columns, j - 1).push(
            spec_level_tile(tiles[j - 1], handle, columns),
        )
    }
}

/// What one layer contributes to the level's sprites: all its tiles if it
/// is a tile layer whose atlas resolves, nothing otherwise.
pub open spec fn spec_layer_contrib(
    layer: LdtkLayer,
    state: MapState,
    atlas_columns: Seq<(AssetId, u32)>,
) -> Seq<LevelTileSpawn> {
    if spec_is_tiles(layer) {
        match spec_layer_atlas(state, atlas_columns, layer) {
            Option::Some((handle, columns)) => spec_layer_tiles(
                layer.grid_tiles@,
                handle,
                columns,
                layer.grid_tiles@.len() as int,
            ),
            Option::None => Seq::empty(),
        }
    } else {
        Seq::empty()
    }
}

/// The sprites of the first `k` layers of the level.
pub open spec fn spec_level_tiles(
    layers: Seq<LdtkLayer>,
    state: MapState,
    atlas_columns: Seq<(AssetId, u32)>,
    k: int,
) -> Seq<LevelTileSpawn>
    decreases k,
{
    if k <= 0 {
        Seq::empty()
    } else {
        spec_level_tiles(layers, state, atlas_columns, k - 1) + spec_layer_contrib(
            layers[k - 1],
            state,
            atlas_columns,
        )
    }
}

/// The tileset identifiers of the first `k` layers that are tile layers
/// whose atlas does not resolve, in layer order.
pub open spec fn spec_missing_atlases(
    layers: Seq<LdtkLayer>,
    state: MapState,
    atlas_columns: Seq<(AssetId, u32)>,
    k: int,
) -> Seq<i32>
    decreases k,
{
    if k <= 0 {
        Seq::empty()
    } else {
        spec_missing_atlases(layers, state, atlas_columns, k - 1) + (
        if spec_is_tiles(layers[k - 1]) && spec_layer_atlas(state, atlas_columns, layers[k - 1])
            is None {
            seq![layers[k - 1].tileset_def_uid->0]
        } else {
            Seq::empty()
        })
    }
}

/// Where the player ends up: the position of the last player spawn tile
/// among the planned sprites, if any.
pub open spec fn spec_last_spawn(tiles: Seq<LevelTileSpawn>) -> Option<(i32, i32)>
    decreases tiles.len(),
{
    if tiles.len() == 0 {
        Option::None
    } else if tiles.last().is_player_spawn {
        Option::Some((tiles.last().grid_x, tiles.last().world_y))
    } else {
        spec_last_spawn(tiles.drop_last())
    }
}

/// A tile layer is fit for loading: it names its tileset, and if its atlas
/// resolves, every tile's texture index fits the machine word.
pub open spec fn spec_layer_ok(
    layer: LdtkLayer,
    state: MapState,
    atlas_columns: Seq<(AssetId, u32)>,
) -> bool {
    spec_is_tiles(layer) ==> {
        &&& layer.tileset_def_uid is Some
        &&& match spec_layer_atlas(state, atlas_columns, layer) {
            Option::Some((handle, columns)) => forall|j: int|
                0 <= j < layer.grid_tiles@.len() ==> spec_tile_index(
                    #[trigger] layer.grid_tiles@[j],
                    columns,
                ) <= u32::MAX,
            Option::None => true,
        }
    }
}

/// The level the map state points at.
pub open spec fn spec_current_level(asset: MapAsset, state: MapState) -> crate::map_asset::LdtkLevel {
    asset.project.levels@[state.current_level as int]
}

/// The column count recorded for the given atlas handle, if any.
fn columns_for(atlas_columns: &Vec<(AssetId, u32)>, handle: AssetId) -> (r: Option<u32>)
    ensures
        r == spec_columns_lookup(atlas_columns@, handle),
{
    let mut i: usize = 0;
    proof {
        assert(atlas_columns@.subrange(0, atlas_columns@.len() as int) =~= atlas_columns@);
    }
    while i < atlas_columns.len()
        invariant
            0 <= i <= atlas_columns@.len(),
            spec_columns_lookup(atlas_columns@, handle) == spec_columns_lookup(
                atlas_columns@.subrange(i as int, atlas_columns@.len() as int),
                handle,
            ),
        decreases atlas_columns@.len() - i,
    {
        let entry = atlas_columns[i];
        proof {
            let tail = atlas_columns@.subrange(i as int, atlas_columns@.len() as int);
            assert(tail[0] == atlas_columns@[i as int]);
            assert(tail.drop_first() =~= atlas_columns@.subrange(
                i as int + 1,
                atlas_columns@.len() as int,
            ));
        }
        if entry.0 == handle {
            return Some(entry.1);
        }
        i = i + 1;
    }
    None
}

/// Loads in the current level.
///
/// Plans the sprites of the level the map state points at: each tile layer
/// whose atlas is registered contributes one sprite per grid tile, a tile
/// layer whose atlas cannot be found is skipped and recorded, and any
/// other layer contributes nothing. A tile with id 2 marks a player spawn:
/// the player is moved to the last such tile. A level whose layers are not
/// stored in the project contributes nothing and leaves the level's
/// readiness state alone; otherwise the level finishes in
/// [`LevelReadinessState::Loaded`].
#[verifier::loop_isolation(false)]
pub fn load_level(asset: &MapAsset, state: &MapState, atlas_columns: &Vec<(AssetId, u32)>) -> (plan:
    LevelPlan)
    requires
        state.current_level < asset.project.levels@.len(),
        spec_current_level(*asset, *state).layer_instances matches Some(ls) ==> forall|i: int|
            0 <= i < ls@.len() ==> spec_layer_ok(#[trigger] ls@[i], *state, atlas_columns@),
    ensures
        spec_current_level(*asset, *state).layer_instances is None ==> plan.tiles@.len() == 0
            && plan.player_spawn is None && plan.missing_atlases@.len() == 0
            && plan.next_level_readiness is None,
        spec_current_level(*asset, *state).layer_instances matches Some(ls) ==> plan.tiles@
            == spec_level_tiles(ls@, *state, atlas_columns@, ls@.len() as int)
            && plan.missing_atlases@ == spec_missing_atlases(
            ls@,
            *state,
            atlas_columns@,
            ls@.len() as int,
        ) && plan.player_spawn == spec_last_spawn(plan.tiles@) && plan.next_level_readiness
            == Some(LevelReadinessState::Loaded),
{
    let level = &asset.project.levels[state.current_level as usize];
    match &level.layer_instances {
        None => LevelPlan {
            tiles: Vec::new(),
            player_spawn: None,
            missing_atlases: Vec::new(),
            next_level_readiness: None,
        },
        Some(layers) => {
            let tiles_label = String::from_str("Tiles");
            let mut tiles: Vec<LevelTileSpawn> = Vec::new();
            let mut missing: Vec<i32> = Vec::new();
            let mut player_spawn: Option<(i32, i32)> = None;
            let mut k: usize = 0;
            while k < layers.len()
                invariant
                    0 <= k <= layers@.len(),
                    tiles@ == spec_level_tiles(layers@, *state, atlas_columns@, k as int),
                    missing@ == spec_missing_atlases(layers@, *state, atlas_columns@, k as int),
                    player_spawn == spec_last_spawn(tiles@),
                decreases layers@.len() - k,
            {
                let layer = &layers[k];
                if layer.layer_type == tiles_label {
                    let uid = layer.tileset_def_uid.unwrap();
                    let resolved = match state.atlas_handle_for(uid) {
                        Some(handle) => match columns_for(atlas_columns, handle) {
                            Some(columns) => Some((handle, columns)),
                            None => None,
                        },
                        None => None,
                    };
                    proof {
                        assert(resolved == spec_layer_atlas(*state, atlas_columns@, layers@[k as int]));
                    }
                    match resolved {
                        Some(atlas) => {
                            let handle = atlas.0;
                            let columns = atlas.1;
                            let mut j: usize = 0;
                            let ghost base = tiles@;
                            while j < layer.grid_tiles.len()
                                invariant
                                    0 <= j <= layer.grid_tiles@.len(),
                                    tiles@ == base + spec_layer_tiles(
                                        layer.grid_tiles@,
                                        handle,
                                        columns,
                                        j as int,
                                    ),
                                    player_spawn == spec_last_spawn(tiles@),
                                decreases layer.grid_tiles@.len() - j,
                            {
                                let t = &layer.grid_tiles[j];
                                proof {
                                    assert(spec_tile_index(layer.grid_tiles@[j as int], columns)
                                        <= u32::MAX);
                                    assert(t.px_x / 32 <= u32::MAX / 32);
                                    assert(t.px_y / 32 <= u32::MAX / 32);
                                }
                                let texture_index = t.src_x / 32 + (t.src_y / 32) * columns;
                                let grid_x = (t.px_x / 32) as i32;
                                let world_y = -((t.px_y / 32) as i32);
                                let spawn = LevelTileSpawn {
                                    atlas_handle: handle,
                                    texture_index,
                                    grid_x,
                                    world_y,
                                    is_player_spawn: t.t == 2,
                                };
                                proof {
                                    assert(spawn == spec_level_tile(
                                        layer.grid_tiles@[j as int],
                                        handle,
                                        columns,
                                    ));
                                    assert(tiles@.push(spawn).drop_last() =~= tiles@);
                                    assert(tiles@.push(spawn) =~= base + spec_layer_tiles(
                                        layer.grid_tiles@,
                                        handle,
                                        columns,
                                        j as int + 1,
                                    ));
                                }
                                if t.t == 2 {
                                    player_spawn = Some((grid_x, world_y));
                                }
                                tiles.push(spawn);
                                j = j + 1;
                            }
                            proof {
                                assert(missing@ + Seq::<i32>::empty() =~= missing@);
                            }
                        },
                        None => {
                            proof {
                                assert(tiles@ + Seq::<LevelTileSpawn>::empty() =~= tiles@);
                                assert(missing@.push(uid) =~= missing@ + seq![uid]);
                            }
                            missing.push(uid);
                        },
                    }
                } else {
                    proof {
                        assert(!spec_is_tiles(layers@[k as int]));
                        assert(tiles@ + Seq::<LevelTileSpawn>::empty() =~= tiles@);
                        assert(missing@ + Seq::<i32>::empty() =~= missing@);
                    }
                }
                k = k + 1;
            }
            LevelPlan {
                tiles,
                player_spawn,
                missing_atlases: missing,
                next_level_readiness: Some(LevelReadinessState::Loaded),
            }
        },
    }
}

} // verus!
