//! The sheet of terrain tiles and the tiles the map is drawn with.

use crate::animation::AtlasHandle;
use vstd::prelude::*;

verus! {

/// The sheet that the terrain tiles are cut from.
#[derive(Clone, Copy, Debug, PartialEq, Eq, Structural)]
pub struct TerrainSprites(pub AtlasHandle);

/// The tiles of the gold ground strip.
#[derive(Clone, Copy, Debug, PartialEq, Eq, Structural, Hash)]
pub enum TerrainType {
    GoldLeftEnd,
    GoldStraight,
    GoldRightEnd,
}

impl TerrainSprites {
    pub fn new(handle: AtlasHandle) -> (sprites: TerrainSprites)
        ensures
            sprites.0 == handle,
    {
        TerrainSprites(handle)
    }

    pub fn get_atlas(&self) -> (handle: AtlasHandle)
        ensures
            handle == self.0,
    {
        self.0
    }
}

impl TerrainType {
    /// The place of the tile in its sheet, which has 22 tiles to a row: the
    /// three tiles stand side by side in the ninth row.
    pub open spec fn spec_index(self) -> usize {
        match self {
            TerrainType::GoldLeftEnd => 193,
            TerrainType::GoldStraight => 194,
            TerrainType::GoldRightEnd => 195,
        }
    }

    #[verifier::when_used_as_spec(spec_index)]
    pub fn index(self) -> (i: usize)
        ensures
            i == self.spec_index(),
    {
        match self {
            TerrainType::GoldLeftEnd => 193,
            TerrainType::GoldStraight => 194,
            TerrainType::GoldRightEnd => 195,
        }
    }
}

} // verus!
