//! A plain-value model of a map asset: the LDtk project structure reduced
//! to the values the level loader reads.
//!
//! The engine side parses the asset file's JSON and hands the loader a
//! value of [`MapAsset`].

use vstd::prelude::*;

verus! {

/// One tile placed on a layer's grid.
pub struct LdtkTile {
    /// Horizontal pixel coordinate of the tile in the layer
    pub px_x: u32,
    /// Vertical pixel coordinate of the tile in the layer
    pub px_y: u32,
    /// Horizontal pixel coordinate of the tile in the tileset
    pub src_x: u32,
    /// Vertical pixel coordinate of the tile in the tileset
    pub src_y: u32,
    /// The tile id in the corresponding tileset
    pub t: i32,
}

/// One layer instance of a level.
pub struct LdtkLayer {
    /// The layer's kind, as the project file spells it: "Tiles", "IntGrid",
    /// and so on
    pub layer_type: String,
    /// Identifier of the tileset the layer draws from, if it has one
    pub tileset_def_uid: Option<i32>,
    /// The tiles placed on the layer's grid
    pub grid_tiles: Vec<LdtkTile>,
}

/// One level of the project.
pub struct LdtkLevel {
    /// The level's layers, if they are stored in the project file rather
    /// than in separate files
    pub layer_instances: Option<Vec<LdtkLayer>>,
}

/// The LDtk project structure.
pub struct LdtkProject {
    /// The project's levels
    pub levels: Vec<LdtkLevel>,
}

/// Asset to hold maps.
pub struct MapAsset {
    /// Holds the name of the map
    pub name: Option<String>,
    /// The LDtk project structure
    pub project: LdtkProject,
}

} // verus!
