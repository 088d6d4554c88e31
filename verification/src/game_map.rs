//! The tile map: stacked layers of optional tiles over a shared atlas,
//! coordinate conversions, and the compositing pass that rebuilds the
//! batched draw list (painter's algorithm, top layer first, stopping at
//! the first opaque tile per cell).

use vstd::prelude::*;
use vstd::arithmetic::div_mod::lemma_div_multiples_vanish;
use vstd::arithmetic::mul::lemma_mul_inequality;
use crate::draw::{DrawParam, Point2};
use crate::texture_atlas::TextureAtlas;

verus! {

/// A tile in a layer: the draw transform to render it with, and whether
/// it fully occludes the layers below it at the same cell.
#[derive(Copy, Clone, Debug, PartialEq, Eq, Structural)]
pub struct TileData {
    /// Transform for drawing the tile.
    pub param: DrawParam,
    /// True when the layers below are not visible at this cell.
    pub opaque: bool,
}

impl TileData {
    /// A tile carrying atlas slice `index`'s transform and opacity, or
    /// `None` when `index` is past the last slice.
    pub fn new_with_index(index: usize, atlas: &TextureAtlas) -> (r: Option<TileData>)
        requires
            atlas.opaque@.len() == atlas.params@.len(),
        ensures
            index < atlas.params@.len() ==> r == Some(
                TileData {
                    param: atlas.params@[index as int],
                    opaque: atlas.opaque@[index as int],
                },
            ),
            index >= atlas.params@.len() ==> r is None,
    {
        if let Some((param, opaque)) = atlas.get(index) {
            Some(TileData { param, opaque })
        } else {
            None
        }
    }
}

/// A single layer in the map: one optional tile per cell, row-major.
#[derive(Clone, Debug, PartialEq)]
pub struct MapLayer {
    pub tiles: Vec<Option<TileData>>,
}

impl MapLayer {
    /// An empty layer of `size` cells.
    pub fn new(size: usize) -> (r: MapLayer)
        ensures
            r.tiles@.len() == size,
            forall|i: int| 0 <= i < size ==> r.tiles@[i] is None,
    {
        let mut tiles: Vec<Option<TileData>> = Vec::new();
        let mut i: usize = 0;
        while i < size
            invariant
                i <= size,
                tiles@.len() == i,
                forall|k: int| 0 <= k < i ==> tiles@[k] is None,
            decreases size - i,
        {
            tiles.push(None);
            i = i + 1;
        }
        MapLayer { tiles }
    }

    /// The tile at tile coordinate `(x, y)` in a layer `width` cells wide.
    pub fn get_tile(&self, x: usize, y: usize, width: usize) -> (r: Option<TileData>)
        requires
            y * width + x < self.tiles@.len(),
        ensures
            r == self.tiles@[y * width + x],
    {
        let len: usize = self.tiles.len();
        let offset: usize = y * width + x;
        assert(offset < len);
        self.tiles[offset]
    }

    /// Stores `tile` at tile coordinate `(x, y)`.
    pub fn set_tile(&mut self, tile: TileData, x: usize, y: usize, width: usize)
        requires
            y * width + x < old(self).tiles@.len(),
        ensures
            final(self).tiles@ == old(self).tiles@.update(y * width + x, Some(tile)),
    {
        let len: usize = self.tiles.len();
        let offset: usize = y * width + x;
        assert(offset < len);
        self.tiles[offset] = Some(tile);
    }
}

/// Draw transforms emitted for one cell: the layers `0..li` are scanned
/// from the topmost (`li - 1`) down, each present tile's transform is
/// emitted, and the scan stops at the first opaque tile.
pub open spec fn scan_cell(layers: Seq<MapLayer>, li: int, index: int) -> Seq<DrawParam>
    decreases li,
{
    if li <= 0 {
        Seq::empty()
    } else {
        match layers[li - 1].tiles@[index] {
            Some(t) => if t.opaque {
                seq![t.param]
            } else {
                seq![t.param] + scan_cell(layers, li - 1, index)
            },
            None => scan_cell(layers, li - 1, index),
        }
    }
}

/// Draw transforms of the cells `0..n`, cell by cell in row-major order,
/// each cell scanned over the full layer stack.
pub open spec fn draws_upto(layers: Seq<MapLayer>, n: int) -> Seq<DrawParam>
    decreases n,
{
    if n <= 0 {
        Seq::empty()
    } else {
        draws_upto(layers, n - 1) + scan_cell(layers, layers.len() as int, n - 1)
    }
}

/// The map aggregate: the layer stack, the atlas all tiles come from,
/// and the cached batched draw list with its staleness flag.
pub struct GameMap {
    /// True when the draw list no longer reflects the layer contents.
    pub changed: bool,
    /// Stacking order, index 0 is the bottommost layer.
    pub layers: Vec<MapLayer>,
    /// Width of the map, in tiles.
    pub width: usize,
    /// Height of the map, in tiles.
    pub height: usize,
    /// The atlas the tiles' source rectangles come from.
    pub tileset: TextureAtlas,
    /// The batched draw list of visible tiles; valid when `!changed`.
    pub draw_array: Vec<DrawParam>,
}

impl GameMap {
    /// The draw list the compositing pass produces from the current layers.
    pub open spec fn spec_draws(&self) -> Seq<DrawParam> {
        draws_upto(self.layers@, self.width * self.height)
    }

    /// Well-formedness: the atlas is well formed, every layer covers the
    /// whole grid, the pixel extents fit the machine word, and a clean
    /// draw list matches the layers.
    pub open spec fn wf(&self) -> bool {
        &&& self.tileset.wf()
        &&& forall|i: int|
            0 <= i < self.layers@.len() ==> (#[trigger] self.layers@[i]).tiles@.len() == self.width
                * self.height
        &&& self.width * self.height <= usize::MAX
        &&& self.width * self.tileset.texture_size.x <= usize::MAX
        &&& self.height * self.tileset.texture_size.y <= usize::MAX
        &&& !self.changed ==> self.draw_array@ == self.spec_draws()
    }

    /// Low-level constructor: takes a set of layers and an atlas already
    /// built. The map starts marked stale, with an empty draw list.
    pub fn new(width: usize, height: usize, tileset: TextureAtlas, layers: Vec<MapLayer>) -> (r:
        GameMap)
        requires
            tileset.wf(),
            forall|i: int|
                0 <= i < layers@.len() ==> (#[trigger] layers@[i]).tiles@.len() == width * height,
            width * height <= usize::MAX,
            width * tileset.texture_size.x <= usize::MAX,
            height * tileset.texture_size.y <= usize::MAX,
        ensures
            r.wf(),
            r.changed,
            r.layers == layers,
            r.width == width,
            r.height == height,
            r.tileset == tileset,
            r.draw_array@ == Seq::<DrawParam>::empty(),
    {
        GameMap { changed: true, layers, width, height, tileset, draw_array: Vec::new() }
    }

    /// What `coord_to_tile` returns: the tile under screen pixel
    /// `(x, y)`, or `None` when the pixel lies outside the viewport.
    pub open spec fn spec_coord_to_tile(&self, x: int, y: int, win_width: int, win_height: int) ->
        Option<(usize, usize)> {
        if 0 <= x <= win_width && 0 <= y <= win_height {
            Some(
                (
                    (x / self.tileset.texture_size.x as int) as usize,
                    (y / self.tileset.texture_size.y as int) as usize,
                ),
            )
        } else {
            None
        }
    }

    /// Given screen coordinates and the viewport size, returns the map
    /// column and row under that pixel; `None` for positions outside the
    /// viewport (negative or past its far edge).
    pub fn coord_to_tile(&self, x: isize, y: isize, win_width: usize, win_height: usize) -> (r:
        Option<(usize, usize)>)
        requires
            self.wf(),
        ensures
            r == self.spec_coord_to_tile(x as int, y as int, win_width as int, win_height as int),
    {
        if x >= 0 && (x as usize) <= win_width && y >= 0 && (y as usize) <= win_height {
            let tile_x: usize = (x as usize) / self.tileset.texture_size.x;
            let tile_y: usize = (y as usize) / self.tileset.texture_size.y;
            Some((tile_x, tile_y))
        } else {
            None
        }
    }

    /// What `tile_to_coord` returns: the top-left pixel of the tile at
    /// `(tile_col, tile_row)`, or `None` beyond the (inclusive) bounds.
    pub open spec fn spec_tile_to_coord(&self, tile_col: int, tile_row: int) -> Option<Point2> {
        if 0 <= tile_col <= self.width && 0 <= tile_row <= self.height {
            Some(
                Point2 {
                    x: (tile_col * self.tileset.texture_size.x) as usize,
                    y: (tile_row * self.tileset.texture_size.y) as usize,
                },
            )
        } else {
            None
        }
    }

    /// Given a tile column and row, returns the screen coordinates of
    /// the top-left corner of that tile.
    pub fn tile_to_coord(&self, tile_col: usize, tile_row: usize) -> (r: Option<Point2>)
        requires
            self.wf(),
        ensures
            r == self.spec_tile_to_coord(tile_col as int, tile_row as int),
    {
        if tile_col <= self.width && tile_row <= self.height {
            proof {
                lemma_mul_inequality(
                    tile_col as int,
                    self.width as int,
                    self.tileset.texture_size.x as int,
                );
                lemma_mul_inequality(
                    tile_row as int,
                    self.height as int,
                    self.tileset.texture_size.y as int,
                );
            }
            let x: usize = tile_col * self.tileset.texture_size.x;
            let y: usize = tile_row * self.tileset.texture_size.y;
            Some(Point2 { x, y })
        } else {
            None
        }
    }

    /// The tile `set_tile(x, y, _, param)` stores: `param`'s source
    /// rectangle, destination at the cell's top-left pixel, opaque.
    pub open spec fn placed_tile(&self, x: int, y: int, param: DrawParam) -> TileData {
        TileData {
            param: DrawParam {
                src: param.src,
                dest: Point2 {
                    x: (x * self.tileset.texture_size.x) as usize,
                    y: (y * self.tileset.texture_size.y) as usize,
                },
            },
            opaque: true,
        }
    }

    /// Stores an opaque tile with `param`'s source rectangle at cell
    /// `(x, y)` of the given layer, moving its destination to the cell's
    /// screen position, and marks the map stale. Out-of-range cells and
    /// layers leave the map unchanged.
    pub fn set_tile(&mut self, x: usize, y: usize, layer: usize, param: DrawParam)
        requires
            old(self).wf(),
        ensures
            final(self).wf(),
            final(self).width == old(self).width,
            final(self).height == old(self).height,
            final(self).tileset == old(self).tileset,
            final(self).draw_array == old(self).draw_array,
            if x < old(self).width && y < old(self).height && layer < old(self).layers@.len() {
                &&& final(self).changed
                &&& final(self).layers@.len() == old(self).layers@.len()
                &&& forall|i: int|
                    0 <= i < old(self).layers@.len() && i != layer
                        ==> final(self).layers@[i] == old(self).layers@[i]
                &&& final(self).layers@[layer as int].tiles@ == old(
                    self,
                ).layers@[layer as int].tiles@.update(
                    y * old(self).width + x,
                    Some(old(self).placed_tile(x as int, y as int, param)),
                )
            } else {
                *final(self) == *old(self)
            },
    {
        if x < self.width && y < self.height && layer < self.layers.len() {
            if let Some(dest) = self.tile_to_coord(x, y) {
                self.changed = true;
                let move_param = param.dest(dest);
                let tile = TileData { param: move_param, opaque: true };
                let width = self.width;
                proof {
                    assert(y * width + x < width * self.height) by (nonlinear_arith)
                        requires
                            x < width,
                            y < self.height,
                            0 <= x,
                            0 <= y,
                    ;
                }
                self.layers[layer].set_tile(tile, x, y, width);
            }
        }
    }

    /// Rebuilds the batched draw list from the layers when the map is
    /// stale, and clears the staleness flag; a clean map is untouched.
    /// Running it twice in a row therefore yields the same draw list,
    /// and the second run changes nothing.
    pub fn update(&mut self)
        requires
            old(self).wf(),
        ensures
            final(self).wf(),
            !final(self).changed,
            final(self).draw_array@ == old(self).spec_draws(),
            final(self).layers == old(self).layers,
            final(self).width == old(self).width,
            final(self).height == old(self).height,
            final(self).tileset == old(self).tileset,
            !old(self).changed ==> *final(self) == *old(self),
    {
        if !self.changed {
            return ;
        }
        let total: usize = self.width * self.height;
        let mut draws: Vec<DrawParam> = Vec::new();
        let mut index: usize = 0;
        while index < total
            invariant
                self.wf(),
                total == self.width * self.height,
                index <= total,
                draws@ == draws_upto(self.layers@, index as int),
            decreases total - index,
        {
            let ghost full = scan_cell(self.layers@, self.layers@.len() as int, index as int);
            let mut cell: Vec<DrawParam> = Vec::new();
            let mut li: usize = self.layers.len();
            while li > 0
                invariant
                    self.wf(),
                    total == self.width * self.height,
                    index < total,
                    li <= self.layers@.len(),
                    full == scan_cell(self.layers@, self.layers@.len() as int, index as int),
                    full == cell@ + scan_cell(self.layers@, li as int, index as int),
                decreases li,
            {
                let layer = &self.layers[li - 1];
                let t: Option<TileData> = layer.tiles[index];
                match t {
                    Some(tile) => {
                        let ghost cell_old = cell@;
                        cell.push(tile.param);
                        if tile.opaque {
                            proof {
                                assert(cell_old + seq![tile.param] =~= cell_old.push(tile.param));
                                assert(cell@ + scan_cell(self.layers@, 0, index as int) =~= cell@);
                            }
                            li = 0;
                        } else {
                            proof {
                                let rest = scan_cell(self.layers@, li - 1, index as int);
                                assert(cell_old + (seq![tile.param] + rest) =~= cell_old.push(
                                    tile.param,
                                ) + rest);
                            }
                            li = li - 1;
                        }
                    },
                    None => {
                        li = li - 1;
                    },
                }
            }
            draws.append(&mut cell);
            index = index + 1;
        }
        self.draw_array = draws;
        self.changed = false;
    }
}

/// Round trip of the coordinate conversions: for any tile coordinate
/// within the map, `tile_to_coord` yields the cell's top-left pixel, and
/// flooring that pixel back by the tile size recovers the coordinate.
pub proof fn lemma_tile_to_coord_round_trip(m: &GameMap, tile_col: int, tile_row: int)
    requires
        m.wf(),
        0 <= tile_col < m.width,
        0 <= tile_row < m.height,
    ensures
        m.spec_tile_to_coord(tile_col, tile_row) == Some(
            Point2 {
                x: (tile_col * m.tileset.texture_size.x) as usize,
                y: (tile_row * m.tileset.texture_size.y) as usize,
            },
        ),
        (tile_col * m.tileset.texture_size.x) / m.tileset.texture_size.x as int == tile_col,
        (tile_row * m.tileset.texture_size.y) / m.tileset.texture_size.y as int == tile_row,
{
    lemma_div_multiples_vanish(tile_col, m.tileset.texture_size.x as int);
    lemma_div_multiples_vanish(tile_row, m.tileset.texture_size.y as int);
    assert(tile_col * m.tileset.texture_size.x == m.tileset.texture_size.x as int * tile_col)
        by (nonlinear_arith);
    assert(tile_row * m.tileset.texture_size.y == m.tileset.texture_size.y as int * tile_row)
        by (nonlinear_arith);
}

/// Occlusion: the draw transforms a cell contributes depend only on the
/// layers at or above the topmost present opaque tile. Two layer stacks
/// that agree from an opaque tile at layer `j` upward scan identically,
/// however the layers below `j` differ — nothing below is ever emitted.
pub proof fn lemma_occlusion(l1: Seq<MapLayer>, l2: Seq<MapLayer>, li: int, j: int, index: int)
    requires
        0 <= j < li,
        li <= l1.len(),
        li <= l2.len(),
        l1[j].tiles@[index] is Some,
        l1[j].tiles@[index]->Some_0.opaque,
        forall|k: int| j <= k < li ==> l1[k] == l2[k],
    ensures
        scan_cell(l1, li, index) == scan_cell(l2, li, index),
    decreases li,
{
    assert(l1[li - 1] == l2[li - 1]);
    if li - 1 == j {
    } else {
        match l1[li - 1].tiles@[index] {
            Some(t) => {
                if !t.opaque {
                    lemma_occlusion(l1, l2, li - 1, j, index);
                }
            },
            None => {
                lemma_occlusion(l1, l2, li - 1, j, index);
            },
        }
    }
}

} // verus!
