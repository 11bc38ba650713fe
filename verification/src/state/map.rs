use crate::identity::Id;
use vstd::prelude::*;

verus! {

/// The number of rows that a stored map has room for.
pub const MAP_MAX_HEIGHT: usize = 10;

/// The number of tiles that a stored map has room for.
pub const MAP_MAX_WIDTH: usize = 20;

/// A sparse map of tiles, row by row.
///
/// `columns` and `values` list the tiles that are set: the column of each
/// and what is there. `row_ptrs[y]` is the position in these lists at which
/// row `y` begins. All three lists are padded with `compressed_value`, the
/// value of every tile that is not listed.
#[derive(Clone, Copy, Debug, PartialEq, Eq)]
pub struct TileMap {
    pub owner: Id,
    pub row_ptrs: [u8; MAP_MAX_HEIGHT],
    pub columns: [u8; MAP_MAX_WIDTH],
    pub values: [u8; MAP_MAX_WIDTH],
    pub width: u8,
    pub height: u8,
    pub compressed_value: u8,
}

/// A tile map as a mathematical value.
pub struct TileMapView {
    pub owner: Id,
    pub row_ptrs: Seq<u8>,
    pub columns: Seq<u8>,
    pub values: Seq<u8>,
    pub width: u8,
    pub height: u8,
    pub compressed_value: u8,
}

impl View for TileMap {
    type V = TileMapView;

    open spec fn view(&self) -> TileMapView {
        TileMapView {
            owner: self.owner,
            row_ptrs: self.row_ptrs@,
            columns: self.columns@,
            values: self.values@,
            width: self.width,
            height: self.height,
            compressed_value: self.compressed_value,
        }
    }
}

} // verus!
