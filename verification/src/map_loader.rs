//! Loading maps: turning a loaded Tiled map into a plan of engine work.
//!
//! There are five states a map can be in, in the order they occur:
//! 1. [`MapReadinessState::Loading`]: the map is loading from the asset
//!    file.
//! 2. [`MapReadinessState::Loaded`]: the map is loaded and all the various
//!    entities are spawned; the map is not interactable yet.
//! 3. [`MapReadinessState::Ready`]: the map is ready to be played upon.
//! 4. [`MapReadinessState::Unloading`]: the map is unloading.
//! 5. [`MapReadinessState::Unloaded`]: any previously loaded map is fully
//!    unloaded; this is the resting state, and the state the game begins in.
//!
//! The menu moves the state from `Unloaded` to `Loading` when it asks for a
//! map; once the asset has arrived, [`setup_map`] plans the work for the
//! `Loaded` state.

use crate::map_model::{TileLayer, TiledLayer, TiledMap, Tileset};
use crate::map_state::{contains_str_key, AssetId, MapReadinessState, MapState};
use crate::map_util::{map_cord_to_world_cord, spec_world_cord};
use vstd::prelude::*;

verus! {

/// Everything the engine must do to load one tileset's texture and build
/// its texture atlas: load `image`, cut it into a grid of `columns` by
/// `rows` tiles of `tile_width` by `tile_height` pixels, and register both
/// under `key`.
pub struct AtlasJob {
    /// Tileset name; texture and atlas are registered under it
    pub key: String,
    /// Path of the tileset image to load
    pub image: String,
    /// Width of one tile, in pixels
    pub tile_width: u32,
    /// Height of one tile, in pixels
    pub tile_height: u32,
    /// Number of tile columns in the atlas
    pub columns: u32,
    /// Number of tile rows in the atlas
    pub rows: u32,
}

/// One tile sprite to spawn: which atlas to draw from, which texture inside
/// it, and where the tile stands.
pub struct TileSpawn {
    /// Name of the tileset whose atlas the sprite draws from
    pub atlas_key: String,
    /// Index of the texture within the atlas
    pub index: u32,
    /// Column of the tile, in map coordinates
    pub map_x: u32,
    /// Row of the tile, in world coordinates
    pub world_y: u32,
}

/// The backdrop sprite spanning the whole map, sized in pixels.
pub struct Backdrop {
    /// Width of the map, in pixels
    pub width: u32,
    /// Height of the map, in pixels
    pub height: u32,
}

/// The plan for setting up a loaded map: which atlases to build, which tile
/// sprites to spawn, the backdrop behind them, and the readiness state to
/// move to.
pub struct MapPlan {
    /// Atlases to build, one per newly seen tileset with an image
    pub atlas_jobs: Vec<AtlasJob>,
    /// Tile sprites to spawn, bottom layer first
    pub tiles: Vec<TileSpawn>,
    /// The backdrop sprite behind the map
    pub backdrop: Backdrop,
    /// The state the map moves to once the plan is carried out
    pub next_map_readiness: MapReadinessState,
}

/// The names under which a texture is registered.
pub open spec fn spec_texture_keys(entries: Seq<(String, AssetId)>) -> Set<Seq<char>> {
    Set::new(|k: Seq<char>| contains_str_key(entries, k))
}

/// The atlas job for one tileset.
pub open spec fn spec_atlas_job(ts: Tileset) -> AtlasJob {
    AtlasJob {
        key: ts.name,
        image: ts.image->0,
        tile_width: ts.tile_width,
        tile_height: ts.tile_height,
        columns: ts.columns,
        rows: (ts.tilecount as int / ts.columns as int) as u32,
    }
}

/// The atlas jobs for a run of tilesets, given the set of names already
/// present: one job per tileset that has an image and whose name was not
/// seen before, in tileset order.
pub open spec fn spec_atlas_jobs(tilesets: Seq<Tileset>, present: Set<Seq<char>>) -> Seq<AtlasJob>
    decreases tilesets.len(),
{
    if tilesets.len() == 0 {
        Seq::empty()
    } else {
        let ts = tilesets[0];
        if ts.image is Some && !present.contains(ts.name@) {
            seq![spec_atlas_job(ts)] + spec_atlas_jobs(
                tilesets.drop_first(),
                present.insert(ts.name@),
            )
        } else {
            spec_atlas_jobs(tilesets.drop_first(), present)
        }
    }
}

/// The names an atlas can be looked up under once the tileset pass is done:
/// everything already registered, plus the names of this map's tilesets
/// that bring an image.
pub open spec fn spec_available_keys(map: TiledMap, state: MapState) -> Set<Seq<char>> {
    Set::new(
        |k: Seq<char>|
            contains_str_key(state.textures@, k) || exists|i: int|
                0 <= i < map.tilesets@.len() && (#[trigger] map.tilesets@[i]).image is Some
                    && map.tilesets@[i].name@ == k,
    )
}

/// The sprite for one cell: one spawn if a tile is placed there, none
/// otherwise.
pub open spec fn spec_cell_spawn(
    cell: Option<crate::map_model::TileRef>,
    map_height: u32,
    x: int,
    y: int,
) -> Seq<TileSpawn> {
    match cell {
        Option::Some(t) => seq![
            TileSpawn {
                atlas_key: t.tileset,
                index: t.id,
                map_x: x as u32,
                world_y: spec_world_cord(map_height, y as u32) as u32,
            },
        ],
        Option::None => Seq::empty(),
    }
}

/// The sprites of the first `y` cells of column `x`, top row first.
pub open spec fn spec_column_spawns(layer: TileLayer, map_height: u32, x: int, y: int) -> Seq<
    TileSpawn,
>
    decreases y,
{
    if y <= 0 {
        Seq::empty()
    } else {
        spec_column_spawns(layer, map_height, x, y - 1) + spec_cell_spawn(
            layer.cells@[x]@[y - 1],
            map_height,
            x,
            y - 1,
        )
    }
}

/// The sprites of the first `x` columns of a tile layer.
pub open spec fn spec_layer_spawns(layer: TileLayer, map_height: u32, x: int) -> Seq<TileSpawn>
    decreases x,
{
    if x <= 0 {
        Seq::empty()
    } else {
        spec_layer_spawns(layer, map_height, x - 1) + spec_column_spawns(
            layer,
            map_height,
            x - 1,
            layer.height as int,
        )
    }
}

/// What one layer contributes to the plan: its sprites if it is a tile
/// layer, nothing otherwise.
pub open spec fn spec_layer_contrib(layer: TiledLayer, map_height: u32) -> Seq<TileSpawn> {
    match layer {
        TiledLayer::Tiles(l) => spec_layer_spawns(l, map_height, l.width as int),
        TiledLayer::Other => Seq::empty(),
    }
}

/// The sprites of the last `k` layers of the map, processed back to front,
/// so that the last layer of the map file is spawned first.
pub open spec fn spec_map_spawns(layers: Seq<TiledLayer>, map_height: u32, k: int) -> Seq<
    TileSpawn,
>
    decreases k,
{
    if k <= 0 {
        Seq::empty()
    } else {
        spec_map_spawns(layers, map_height, k - 1) + spec_layer_contrib(
            layers[layers.len() - k],
            map_height,
        )
    }
}

/// Every tile placed in the layer stands inside the map's height and draws
/// from an available tileset.
pub open spec fn spec_layer_cells_ok(
    layer: TileLayer,
    map_height: u32,
    avail: Set<Seq<char>>,
) -> bool {
    forall|x: int, y: int|
        0 <= x < layer.cells@.len() && 0 <= y < layer.cells@[x]@.len()
            && (#[trigger] layer.cells@[x]@[y]) is Some ==> y < map_height && avail.contains(
            layer.cells@[x]@[y]->0.tileset@,
        )
}

/// Whether any planned atlas job already carries the given key.
fn jobs_contain_key(jobs: &Vec<AtlasJob>, key: &String) -> (r: bool)
    ensures
        r == exists|j: int| 0 <= j < jobs@.len() && (#[trigger] jobs@[j]).key@ == key@,
{
    let mut i: usize = 0;
    while i < jobs.len()
        invariant
            0 <= i <= jobs@.len(),
            forall|j: int| 0 <= j < i ==> (#[trigger] jobs@[j]).key@ != key@,
        decreases jobs@.len() - i,
    {
        if jobs[i].key == *key {
            return true;
        }
        i = i + 1;
    }
    false
}

/// The set of names present after some jobs have been planned: those
/// registered before, plus the keys of the planned jobs.
pub open spec fn spec_present_after(state: MapState, jobs: Seq<AtlasJob>) -> Set<Seq<char>> {
    Set::new(
        |k: Seq<char>|
            contains_str_key(state.textures@, k) || exists|j: int|
                0 <= j < jobs.len() && (#[trigger] jobs[j]).key@ == k,
    )
}

/// Plans the texture atlases for a map's tilesets: one job per tileset
/// that brings an image and is not registered yet, first come first
/// served.
#[verifier::loop_isolation(false)]
pub fn plan_atlas_jobs(map: &TiledMap, state: &MapState) -> (jobs: Vec<AtlasJob>)
    requires
        forall|i: int|
            0 <= i < map.tilesets@.len() && (#[trigger] map.tilesets@[i]).image is Some
                ==> map.tilesets@[i].columns > 0,
    ensures
        jobs@ == spec_atlas_jobs(map.tilesets@, spec_texture_keys(state.textures@)),
{
    let mut jobs: Vec<AtlasJob> = Vec::new();
    let mut i: usize = 0;
    proof {
        assert(map.tilesets@.subrange(0, map.tilesets@.len() as int) =~= map.tilesets@);
        assert(spec_present_after(*state, jobs@) =~= spec_texture_keys(state.textures@));
    }
    while i < map.tilesets.len()
        invariant
            0 <= i <= map.tilesets@.len(),
            spec_atlas_jobs(map.tilesets@, spec_texture_keys(state.textures@)) == jobs@
                + spec_atlas_jobs(
                map.tilesets@.subrange(i as int, map.tilesets@.len() as int),
                spec_present_after(*state, jobs@),
            ),
        decreases map.tilesets@.len() - i,
    {
        let ghost rest = map.tilesets@.subrange(i as int, map.tilesets@.len() as int);
        let ghost present = spec_present_after(*state, jobs@);
        proof {
            assert(rest[0] == map.tilesets@[i as int]);
            assert(rest.drop_first() =~= map.tilesets@.subrange(
                i as int + 1,
                map.tilesets@.len() as int,
            ));
        }
        let ts = &map.tilesets[i];
        match &ts.image {
            Some(image) => {
                let registered = state.textures_contain_key(&ts.name) || jobs_contain_key(
                    &jobs,
                    &ts.name,
                );
                if !registered {
                    let job = AtlasJob {
                        key: ts.name.clone(),
                        image: image.clone(),
                        tile_width: ts.tile_width,
                        tile_height: ts.tile_height,
                        columns: ts.columns,
                        rows: ts.tilecount / ts.columns,
                    };
                    proof {
                        assert(job == spec_atlas_job(map.tilesets@[i as int]));
                    }
                    let ghost name = map.tilesets@[i as int].name@;
                    let ghost oldjobs = jobs@;
                    jobs.push(job);
                    proof {
                        let newjobs = jobs@;
                        assert forall|k: Seq<char>|
                            spec_present_after(*state, newjobs).contains(k) == present.insert(
                                name,
                            ).contains(k) by {
                            if !contains_str_key(state.textures@, k) {
                                if exists|j: int|
                                    0 <= j < newjobs.len() && (#[trigger] newjobs[j]).key@ == k {
                                    let j = choose|j: int|
                                        0 <= j < newjobs.len() && (#[trigger] newjobs[j]).key@
                                            == k;
                                    if j < oldjobs.len() {
                                        assert(oldjobs[j].key@ == k);
                                    } else {
                                        assert(newjobs[j] == spec_atlas_job(
                                            map.tilesets@[i as int],
                                        ));
                                    }
                                }
                                if present.insert(name).contains(k) {
                                    if k == name {
                                        assert(newjobs[newjobs.len() - 1].key@ == k);
                                    } else if exists|j: int|
                                        0 <= j < oldjobs.len() && (#[trigger] oldjobs[j]).key@
                                            == k {
                                        let j = choose|j: int|
                                            0 <= j < oldjobs.len() && (#[trigger] oldjobs[j]).key@
                                                == k;
                                        assert(newjobs[j].key@ == k);
                                    }
                                }
                            }
                        }
                        assert(spec_present_after(*state, newjobs) =~= present.insert(name));
                        let rest2 = spec_atlas_jobs(rest.drop_first(), present.insert(name));
                        assert(oldjobs + (seq![spec_atlas_job(map.tilesets@[i as int])] + rest2)
                            =~= newjobs + rest2);
                    }
                } else {
                    proof {
                        assert(present.contains(map.tilesets@[i as int].name@));
                    }
                }
            },
            None => {},
        }
        i = i + 1;
    }
    proof {
        assert(map.tilesets@.subrange(
            map.tilesets@.len() as int,
            map.tilesets@.len() as int,
        ) =~= Seq::<Tileset>::empty());
        assert(jobs@ + Seq::<AtlasJob>::empty() =~= jobs@);
    }
    jobs
}

/// Sets up the world's current map.
///
/// This runs when a new map has just been loaded. It plans the work that
/// turns the map into entities: the texture atlases to build for its
/// tilesets, the tile sprites to spawn layer by layer (layers are walked in
/// reverse so that the first layer of the map file ends up spawned last),
/// the backdrop behind everything, and the move to the
/// [`MapReadinessState::Loaded`] state.
#[verifier::loop_isolation(false)]
pub fn setup_map(map: &TiledMap, state: &MapState) -> (plan: MapPlan)
    requires
        map.well_formed(),
        map.width * map.tile_width <= u32::MAX,
        map.height * map.tile_height <= u32::MAX,
        forall|i: int|
            0 <= i < map.tilesets@.len() && (#[trigger] map.tilesets@[i]).image is Some
                ==> map.tilesets@[i].columns > 0,
        forall|i: int|
            0 <= i < map.layers@.len() ==> match #[trigger] map.layers@[i] {
                TiledLayer::Tiles(l) => spec_layer_cells_ok(
                    l,
                    map.height,
                    spec_available_keys(*map, *state),
                ),
                TiledLayer::Other => true,
            },
    ensures
        plan.atlas_jobs@ == spec_atlas_jobs(map.tilesets@, spec_texture_keys(state.textures@)),
        plan.tiles@ == spec_map_spawns(map.layers@, map.height, map.layers@.len() as int),
        forall|i: int|
            0 <= i < plan.tiles@.len() ==> spec_available_keys(*map, *state).contains(
                (#[trigger] plan.tiles@[i]).atlas_key@,
            ),
        plan.backdrop.width == map.width * map.tile_width,
        plan.backdrop.height == map.height * map.tile_height,
        plan.next_map_readiness == MapReadinessState::Loaded,
{
    let atlas_jobs = plan_atlas_jobs(map, state);

    let mut tiles: Vec<TileSpawn> = Vec::new();
    let n = map.layers.len();
    let mut k: usize = 0;
    while k < n
        invariant
            0 <= k <= n,
            tiles@ == spec_map_spawns(map.layers@, map.height, k as int),
            forall|i: int|
                0 <= i < tiles@.len() ==> spec_available_keys(*map, *state).contains(
                    (#[trigger] tiles@[i]).atlas_key@,
                ),
        decreases n - k,
    {
        let idx = n - 1 - k;
        match &map.layers[idx] {
            TiledLayer::Tiles(layer) => {
                proof {
                    assert(map.layers@[idx as int] matches TiledLayer::Tiles(l) && l == *layer);
                    assert(tiles@ + Seq::<TileSpawn>::empty() =~= tiles@);
                }
                let ghost base = tiles@;
                let mut x: usize = 0;
                while x < layer.cells.len()
                    invariant
                        0 <= x <= layer.cells@.len(),
                        tiles@ == base + spec_layer_spawns(*layer, map.height, x as int),
                        forall|i: int|
                            0 <= i < tiles@.len() ==> spec_available_keys(*map, *state).contains(
                                (#[trigger] tiles@[i]).atlas_key@,
                            ),
                    decreases layer.cells@.len() - x,
                {
                    let column = &layer.cells[x];
                    proof {
                        assert(tiles@ + Seq::<TileSpawn>::empty() =~= tiles@);
                    }
                    let ghost colbase = tiles@;
                    let mut y: usize = 0;
                    while y < column.len()
                        invariant
                            0 <= y <= column@.len(),
                            column@ == layer.cells@[x as int]@,
                            x < layer.cells@.len(),
                            tiles@ == colbase + spec_column_spawns(
                                *layer,
                                map.height,
                                x as int,
                                y as int,
                            ),
                            forall|i: int|
                                0 <= i < tiles@.len() ==> spec_available_keys(
                                    *map,
                                    *state,
                                ).contains((#[trigger] tiles@[i]).atlas_key@),
                        decreases column@.len() - y,
                    {
                        match &column[y] {
                            Some(tile) => {
                                proof {
                                    assert(layer.cells@[x as int]@[y as int] is Some);
                                }
                                let world_y = map_cord_to_world_cord(map, y as u32);
                                let spawn = TileSpawn {
                                    atlas_key: tile.tileset.clone(),
                                    index: tile.id,
                                    map_x: x as u32,
                                    world_y,
                                };
                                proof {
                                    assert(seq![spawn] =~= spec_cell_spawn(
                                        layer.cells@[x as int]@[y as int],
                                        map.height,
                                        x as int,
                                        y as int,
                                    ));
                                    assert(tiles@.push(spawn) =~= tiles@ + seq![spawn]);
                                }
                                tiles.push(spawn);
                            },
                            None => {
                                proof {
                                    assert(tiles@ + Seq::<TileSpawn>::empty() =~= tiles@);
                                }
                            },
                        }
                        y = y + 1;
                    }
                    proof {
                        assert(column@.len() == layer.height);
                    }
                    x = x + 1;
                }
                proof {
                    assert(layer.cells@.len() == layer.width);
                    assert(spec_layer_contrib(map.layers@[idx as int], map.height)
                        == spec_layer_spawns(*layer, map.height, layer.width as int));
                }
            },
            TiledLayer::Other => {
                proof {
                    assert(tiles@ + Seq::<TileSpawn>::empty() =~= tiles@);
                }
            },
        }
        k = k + 1;
    }

    let backdrop = Backdrop {
        width: map.width * map.tile_width,
        height: map.height * map.tile_height,
    };

    MapPlan { atlas_jobs, tiles, backdrop, next_map_readiness: MapReadinessState::Loaded }
}

} // verus!
