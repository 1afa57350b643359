//! Tests of the map coordinate conversion, the map setup planner, the
//! level planner, and the map state registries.

use the_caverns::map_asset::{LdtkLayer, LdtkLevel, LdtkProject, LdtkTile, MapAsset};
use the_caverns::map_level::load_level;
use the_caverns::map_loader::setup_map;
use the_caverns::map_model::{TileLayer, TileRef, TiledLayer, TiledMap, Tileset};
use the_caverns::map_state::{LevelReadinessState, MapReadinessState, MapState};
use the_caverns::map_util::map_cord_to_world_cord;

fn empty_map(height: u32) -> TiledMap {
    TiledMap {
        width: 4,
        height,
        tile_width: 16,
        tile_height: 16,
        tilesets: Vec::new(),
        layers: Vec::new(),
    }
}

#[test]
fn world_cord_flips_rows() {
    let map = empty_map(10);
    assert_eq!(map_cord_to_world_cord(&map, 0), 9);
    assert_eq!(map_cord_to_world_cord(&map, 9), 0);
    assert_eq!(map_cord_to_world_cord(&map, 3), 6);
}

#[test]
fn world_cord_is_a_reflection() {
    let map = empty_map(7);
    for cord in 0..7 {
        let once = map_cord_to_world_cord(&map, cord);
        assert!(once < 7);
        assert_eq!(map_cord_to_world_cord(&map, once), cord);
    }
}

fn tileset(name: &str, image: Option<&str>, columns: u32, tilecount: u32) -> Tileset {
    Tileset {
        name: String::from(name),
        image: image.map(String::from),
        tile_width: 32,
        tile_height: 32,
        columns,
        tilecount,
    }
}

#[test]
fn setup_map_plans_one_atlas_per_new_tileset() {
    let map = TiledMap {
        width: 3,
        height: 2,
        tile_width: 32,
        tile_height: 32,
        tilesets: vec![
            tileset("Main Tileset", Some("tiles/main.png"), 8, 24),
            tileset("No Image", None, 4, 8),
            tileset("Main Tileset", Some("tiles/other.png"), 2, 4),
            tileset("Cave", Some("tiles/cave.png"), 5, 10),
        ],
        layers: Vec::new(),
    };
    let state = MapState::default();
    let plan = setup_map(&map, &state);

    assert_eq!(plan.atlas_jobs.len(), 2);
    assert_eq!(plan.atlas_jobs[0].key, "Main Tileset");
    assert_eq!(plan.atlas_jobs[0].image, "tiles/main.png");
    assert_eq!(plan.atlas_jobs[0].columns, 8);
    assert_eq!(plan.atlas_jobs[0].rows, 3);
    assert_eq!(plan.atlas_jobs[1].key, "Cave");
    assert_eq!(plan.atlas_jobs[1].rows, 2);

    assert_eq!(plan.backdrop.width, 96);
    assert_eq!(plan.backdrop.height, 64);
    assert_eq!(plan.next_map_readiness, MapReadinessState::Loaded);
}

#[test]
fn setup_map_skips_registered_tilesets() {
    let map = TiledMap {
        width: 1,
        height: 1,
        tile_width: 32,
        tile_height: 32,
        tilesets: vec![tileset("Main Tileset", Some("tiles/main.png"), 8, 24)],
        layers: Vec::new(),
    };
    let mut state = MapState::default();
    state.register_texture(String::from("Main Tileset"), 7);
    let plan = setup_map(&map, &state);
    assert!(plan.atlas_jobs.is_empty());
}

fn cell(name: &str, id: u32) -> Option<TileRef> {
    Some(TileRef { tileset: String::from(name), id })
}

#[test]
fn setup_map_spawns_tiles_in_reverse_layer_order() {
    // Two layers of a 2 x 2 map; the second layer of the file is processed
    // first. Column x = 0 is walked before x = 1, and inside a column the
    // top row y = 0 comes first.
    let first = TileLayer {
        width: 2,
        height: 2,
        cells: vec![vec![cell("Main", 5), None], vec![None, cell("Main", 6)]],
    };
    let second = TileLayer {
        width: 2,
        height: 2,
        cells: vec![vec![None, cell("Main", 1)], vec![None, None]],
    };
    let map = TiledMap {
        width: 2,
        height: 2,
        tile_width: 32,
        tile_height: 32,
        tilesets: vec![tileset("Main", Some("tiles/main.png"), 4, 8)],
        layers: vec![TiledLayer::Tiles(first), TiledLayer::Other, TiledLayer::Tiles(second)],
    };
    let state = MapState::default();
    let plan = setup_map(&map, &state);

    assert_eq!(plan.tiles.len(), 3);
    // The last layer's single tile comes first: cell (0, 1) of `second`.
    assert_eq!(plan.tiles[0].atlas_key, "Main");
    assert_eq!(plan.tiles[0].index, 1);
    assert_eq!(plan.tiles[0].map_x, 0);
    assert_eq!(plan.tiles[0].world_y, 0);
    // Then the first layer's tiles: (0, 0) then (1, 1).
    assert_eq!(plan.tiles[1].index, 5);
    assert_eq!(plan.tiles[1].map_x, 0);
    assert_eq!(plan.tiles[1].world_y, 1);
    assert_eq!(plan.tiles[2].index, 6);
    assert_eq!(plan.tiles[2].map_x, 1);
    assert_eq!(plan.tiles[2].world_y, 0);
}

#[test]
fn texture_registry_keeps_first_entry() {
    let mut state = MapState::default();
    state.register_texture(String::from("Main"), 1);
    state.register_texture(String::from("Cave"), 2);
    state.register_texture(String::from("Main"), 3);
    assert_eq!(state.textures.len(), 2);
    assert_eq!(state.textures[0], (String::from("Main"), 1));
    assert_eq!(state.textures[1], (String::from("Cave"), 2));
}

#[test]
fn atlas_registry_keeps_first_entry() {
    let mut state = MapState::default();
    state.register_texture_atlas(10, 100);
    state.register_texture_atlas(11, 101);
    state.register_texture_atlas(10, 999);
    assert_eq!(state.atlas_handle_for(10), Some(100));
    assert_eq!(state.atlas_handle_for(11), Some(101));
    assert_eq!(state.atlas_handle_for(12), None);
    assert_eq!(state.texture_atlases.len(), 2);
}

fn tile(px: (u32, u32), src: (u32, u32), t: i32) -> LdtkTile {
    LdtkTile { px_x: px.0, px_y: px.1, src_x: src.0, src_y: src.1, t }
}

fn tiles_layer(uid: i32, grid_tiles: Vec<LdtkTile>) -> LdtkLayer {
    LdtkLayer {
        layer_type: String::from("Tiles"),
        tileset_def_uid: Some(uid),
        grid_tiles,
    }
}

fn asset_of(levels: Vec<LdtkLevel>) -> MapAsset {
    MapAsset { name: None, project: LdtkProject { levels } }
}

#[test]
fn load_level_spawns_layer_tiles() {
    let layer = tiles_layer(
        42,
        vec![
            tile((0, 0), (64, 32), 7),
            tile((32, 96), (0, 0), 2),
            tile((64, 32), (32, 0), 2),
            tile((96, 64), (96, 96), 9),
        ],
    );
    let level = LdtkLevel { layer_instances: Some(vec![layer]) };
    let asset = asset_of(vec![level]);
    let mut state = MapState::default();
    state.register_texture_atlas(42, 500);
    let atlas_columns = vec![(500u64, 4u32)];

    let plan = load_level(&asset, &state, &atlas_columns);

    assert_eq!(plan.tiles.len(), 4);
    // texture index: src_x / 32 + (src_y / 32) * columns
    assert_eq!(plan.tiles[0].texture_index, 2 + 1 * 4);
    assert_eq!(plan.tiles[0].atlas_handle, 500);
    assert_eq!(plan.tiles[0].grid_x, 0);
    assert_eq!(plan.tiles[0].world_y, 0);
    assert!(!plan.tiles[0].is_player_spawn);
    // grid position: px / 32, with the y axis flipped downward
    assert_eq!(plan.tiles[1].grid_x, 1);
    assert_eq!(plan.tiles[1].world_y, -3);
    assert!(plan.tiles[1].is_player_spawn);
    // the player lands on the last spawn tile
    assert!(plan.tiles[2].is_player_spawn);
    assert_eq!(plan.player_spawn, Some((2, -1)));
    assert!(plan.missing_atlases.is_empty());
    assert_eq!(plan.next_level_readiness, Some(LevelReadinessState::Loaded));
}

#[test]
fn load_level_skips_layers_without_atlas() {
    let missing_layer = tiles_layer(7, vec![tile((0, 0), (0, 0), 1)]);
    let int_grid = LdtkLayer {
        layer_type: String::from("IntGrid"),
        tileset_def_uid: None,
        grid_tiles: Vec::new(),
    };
    let level = LdtkLevel { layer_instances: Some(vec![missing_layer, int_grid]) };
    let asset = asset_of(vec![level]);
    let state = MapState::default();
    let atlas_columns = Vec::new();

    let plan = load_level(&asset, &state, &atlas_columns);

    assert!(plan.tiles.is_empty());
    assert_eq!(plan.missing_atlases, vec![7]);
    assert_eq!(plan.player_spawn, None);
    assert_eq!(plan.next_level_readiness, Some(LevelReadinessState::Loaded));
}

#[test]
fn load_level_without_layers_changes_nothing() {
    let level = LdtkLevel { layer_instances: None };
    let asset = asset_of(vec![level]);
    let state = MapState::default();
    let atlas_columns = Vec::new();

    let plan = load_level(&asset, &state, &atlas_columns);

    assert!(plan.tiles.is_empty());
    assert!(plan.missing_atlases.is_empty());
    assert_eq!(plan.player_spawn, None);
    assert_eq!(plan.next_level_readiness, None);
}

#[test]
fn load_level_uses_the_current_level() {
    let first = LdtkLevel { layer_instances: Some(Vec::new()) };
    let second = LdtkLevel {
        layer_instances: Some(vec![tiles_layer(1, vec![tile((0, 0), (32, 0), 4)])]),
    };
    let asset = asset_of(vec![first, second]);
    let mut state = MapState::default();
    state.current_level = 1;
    state.register_texture_atlas(1, 9);
    let atlas_columns = vec![(9u64, 8u32)];

    let plan = load_level(&asset, &state, &atlas_columns);
    assert_eq!(plan.tiles.len(), 1);
    assert_eq!(plan.tiles[0].texture_index, 1);
}

#[test]
fn map_state_starts_empty() {
    let state = MapState::default();
    assert_eq!(state.handle, 0);
    assert!(state.textures.is_empty());
    assert!(state.texture_atlases.is_empty());
    assert!(state.texture_maps.is_empty());
    assert_eq!(state.current_level, 0);
    assert!(state.levels.is_empty());
}
