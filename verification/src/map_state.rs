//! State kept while loading and playing maps: the readiness state machines
//! and the registry of textures and texture atlases that the loaders fill.

use vstd::prelude::*;

verus! {

/// Handle to an engine-side asset, abstracted as a plain identifier.
pub type AssetId = u64;

/// Represents the various stages of readiness for a map.
#[derive(Debug, Clone, Copy, PartialEq, Eq, Hash, Structural)]
pub enum MapReadinessState {
    /// Map is currently loading
    Loading,
    /// Map is currently unloading
    Unloading,
    /// The map is loaded and ready for processing
    Loaded,
    /// The map is unloaded and can be replaced with another map
    Unloaded,
    /// The map is ready for gameplay
    Ready,
}

impl Default for MapReadinessState {
    /// A map starts out unloaded.
    fn default() -> (r: Self)
        ensures
            r == MapReadinessState::Unloaded,
    {
        MapReadinessState::Unloaded
    }
}

/// Represents the various states a level can be in.
#[derive(Debug, Clone, Copy, PartialEq, Eq, Hash, Structural)]
pub enum LevelReadinessState {
    /// The level is unloaded and can be replaced with a different one
    Unloaded,
    /// The level is currently loading and unfit for gameplay
    Loading,
    /// The level is ready for gameplay
    Loaded,
    /// The level is currently unloading and unfit for gameplay
    Unloading,
}

impl Default for LevelReadinessState {
    /// A level starts out unloaded.
    fn default() -> (r: Self)
        ensures
            r == LevelReadinessState::Unloaded,
    {
        LevelReadinessState::Unloaded
    }
}

/// Per-level state; nothing is tracked per level yet.
#[derive(Debug)]
pub struct LevelState {}

/// A reference into a texture: the name of the texture sheet that holds the
/// tile and the (x, y) pixel offset of the tile inside it.
///
/// The key "cave_dirt_floor" might map to ("Main Tileset", 32, 32), meaning
/// that the texture for the "cave_dirt_floor" tile is located in the
/// "Main Tileset" texture at offset (32, 32).
pub struct TextureRef {
    /// Name of the texture sheet
    pub sheet: String,
    /// Horizontal pixel offset inside the sheet
    pub offset_x: u32,
    /// Vertical pixel offset inside the sheet
    pub offset_y: u32,
}

/// True when an entry with the given key is present in a name-keyed registry.
pub open spec fn contains_str_key(entries: Seq<(String, AssetId)>, key: Seq<char>) -> bool {
    exists|i: int| 0 <= i < entries.len() && entries[i].0@ == key
}

/// The handle registered under the given tileset identifier, if any; the
/// first entry wins, and a registry that is only ever grown through
/// [`MapState::register_texture_atlas`] has at most one entry per identifier.
pub open spec fn spec_atlas_lookup(entries: Seq<(i32, AssetId)>, uid: i32) -> Option<AssetId>
    decreases entries.len(),
{
    if entries.len() == 0 {
        Option::None
    } else if entries[0].0 == uid {
        Option::Some(entries[0].1)
    } else {
        spec_atlas_lookup(entries.drop_first(), uid)
    }
}

/// State of the world's current map: the handle of its asset, the textures
/// and texture atlases loaded for it, and which level of it is current.
pub struct MapState {
    /// Handle of the map asset being loaded or played
    pub handle: AssetId,
    /// Texture handles keyed by tileset name
    pub textures: Vec<(String, AssetId)>,
    /// Texture atlas handles keyed by tileset identifier
    pub texture_atlases: Vec<(i32, AssetId)>,
    /// Where the texture for each named tile is found
    pub texture_maps: Vec<(String, TextureRef)>,
    /// Index of the current level
    pub current_level: u32,
    /// Per-level state
    pub levels: Vec<LevelState>,
}

impl Default for MapState {
    /// A fresh map state holds nothing.
    fn default() -> (r: Self)
        ensures
            r.handle == 0,
            r.textures@ =~= Seq::<(String, AssetId)>::empty(),
            r.texture_atlases@ =~= Seq::<(i32, AssetId)>::empty(),
            r.texture_maps@.len() == 0,
            r.current_level == 0,
            r.levels@.len() == 0,
    {
        MapState {
            handle: 0,
            textures: Vec::new(),
            texture_atlases: Vec::new(),
            texture_maps: Vec::new(),
            current_level: 0,
            levels: Vec::new(),
        }
    }
}

impl MapState {
    /// Whether a texture has already been registered under the given
    /// tileset name.
    pub fn textures_contain_key(&self, key: &String) -> (r: bool)
        ensures
            r == contains_str_key(self.textures@, key@),
    {
        let mut i: usize = 0;
        while i < self.textures.len()
            invariant
                0 <= i <= self.textures@.len(),
                forall|j: int| 0 <= j < i ==> self.textures@[j].0@ != key@,
            decreases self.textures@.len() - i,
        {
            if self.textures[i].0 == *key {
                return true;
            }
            i = i + 1;
        }
        false
    }

    /// Registers a texture handle under a tileset name, unless the name is
    /// already taken; an existing entry is never replaced.
    pub fn register_texture(&mut self, key: String, handle: AssetId)
        ensures
            contains_str_key(old(self).textures@, key@) ==> *final(self) == *old(self),
            !contains_str_key(old(self).textures@, key@) ==> final(self).textures@
                == old(self).textures@.push((key, handle)),
            final(self).handle == old(self).handle,
            final(self).texture_atlases == old(self).texture_atlases,
            final(self).texture_maps == old(self).texture_maps,
            final(self).current_level == old(self).current_level,
            final(self).levels == old(self).levels,
    {
        if !self.textures_contain_key(&key) {
            self.textures.push((key, handle));
        }
    }

    /// The atlas handle registered for the given tileset identifier, if any.
    pub fn atlas_handle_for(&self, uid: i32) -> (r: Option<AssetId>)
        ensures
            r == spec_atlas_lookup(self.texture_atlases@, uid),
    {
        let mut i: usize = 0;
        proof {
            assert(self.texture_atlases@.subrange(0, self.texture_atlases@.len() as int)
                =~= self.texture_atlases@);
        }
        while i < self.texture_atlases.len()
            invariant
                0 <= i <= self.texture_atlases@.len(),
                spec_atlas_lookup(self.texture_atlases@, uid) == spec_atlas_lookup(
                    self.texture_atlases@.subrange(i as int, self.texture_atlases@.len() as int),
                    uid,
                ),
            decreases self.texture_atlases@.len() - i,
        {
            let entry = (self.texture_atlases[i].0, self.texture_atlases[i].1);
            proof {
                let tail = self.texture_atlases@.subrange(i as int, self.texture_atlases@.len() as int);
                assert(tail[0] == self.texture_atlases@[i as int]);
                assert(tail.drop_first() =~= self.texture_atlases@.subrange(
                    i as int + 1,
                    self.texture_atlases@.len() as int,
                ));
            }
            if entry.0 == uid {
                return Some(entry.1);
            }
            i = i + 1;
        }
        None
    }

    /// Registers a texture atlas handle under a tileset identifier, unless
    /// one is already registered; an existing entry is never replaced.
    pub fn register_texture_atlas(&mut self, uid: i32, handle: AssetId)
        ensures
            spec_atlas_lookup(old(self).texture_atlases@, uid) is Some ==> *final(self) == *old(self),
            spec_atlas_lookup(old(self).texture_atlases@, uid) is None ==> final(self).texture_atlases@
                == old(self).texture_atlases@.push((uid, handle)),
            final(self).handle == old(self).handle,
            final(self).textures == old(self).textures,
            final(self).texture_maps == old(self).texture_maps,
            final(self).current_level == old(self).current_level,
            final(self).levels == old(self).levels,
    {
        if self.atlas_handle_for(uid).is_none() {
            self.texture_atlases.push((uid, handle));
        }
    }
}

} // verus!
