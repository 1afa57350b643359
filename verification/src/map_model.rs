//! A plain-value model of a Tiled map: its dimensions, tilesets and layers.
//!
//! The engine side parses the map file and hands the loader a value of
//! [`TiledMap`]; the loader's planning logic then works on these plain
//! records alone.

use vstd::prelude::*;

verus! {

/// One cell's tile: the name of the tileset it comes from and its tile id
/// within that tileset.
pub struct TileRef {
    /// Name of the tileset that holds the tile's texture
    pub tileset: String,
    /// The tile's id, which is also its index within the tileset's texture
    pub id: u32,
}

/// A layer of tiles: a grid of `width` columns by `height` rows, stored
/// column by column; a cell holds the tile placed there, if any.
pub struct TileLayer {
    /// Number of columns
    pub width: u32,
    /// Number of rows
    pub height: u32,
    /// The grid, indexed `cells[x][y]`
    pub cells: Vec<Vec<Option<TileRef>>>,
}

impl TileLayer {
    /// The grid really is `width` columns of `height` cells each.
    pub open spec fn well_formed(self) -> bool {
        &&& self.cells@.len() == self.width
        &&& forall|x: int| 0 <= x < self.cells@.len() ==> (#[trigger] self.cells@[x])@.len()
            == self.height
    }
}

/// A layer of the map; only tile layers are instantiated, every other kind
/// is left alone.
pub enum TiledLayer {
    /// A layer of tiles
    Tiles(TileLayer),
    /// Any other kind of layer (objects, images, groups)
    Other,
}

/// A tileset of the map: where its texture comes from and how the tiles are
/// arranged in it.
pub struct Tileset {
    /// The tileset's name
    pub name: String,
    /// Path of the tileset's image, if it has one
    pub image: Option<String>,
    /// Width of one tile, in pixels
    pub tile_width: u32,
    /// Height of one tile, in pixels
    pub tile_height: u32,
    /// Number of tile columns in the image
    pub columns: u32,
    /// Total number of tiles
    pub tilecount: u32,
}

/// A Tiled map, reduced to the plain values the loader reads.
pub struct TiledMap {
    /// Width of the map, in tiles
    pub width: u32,
    /// Height of the map, in tiles
    pub height: u32,
    /// Width of one tile, in pixels
    pub tile_width: u32,
    /// Height of one tile, in pixels
    pub tile_height: u32,
    /// The tilesets present on this map
    pub tilesets: Vec<Tileset>,
    /// The map's layers, in the order the map file gives them
    pub layers: Vec<TiledLayer>,
}

impl TiledMap {
    /// Every tile layer's grid matches its declared size.
    pub open spec fn well_formed(self) -> bool {
        forall|i: int| 0 <= i < self.layers@.len()
            ==> match #[trigger] self.layers@[i] {
                TiledLayer::Tiles(layer) => layer.well_formed(),
                TiledLayer::Other => true,
            }
    }
}

} // verus!
