//! Per-frame state around the map: the hovered tile, the hover-highlight
//! transform, and the glue that reruns the compositing pass each frame.
//! The host framework's event loop feeds in pointer positions and takes
//! the draw list and highlight out for rendering.

use vstd::prelude::*;
use vstd::arithmetic::div_mod::{
    lemma_div_of0,
    lemma_fundamental_div_mod,
    lemma_mod_bound,
    lemma_small_mod,
};
use vstd::arithmetic::mul::lemma_mul_inequality;
use vstd::pervasive::unreached;
use crate::draw::{DrawParam, Point2, Rect, Size2};
use crate::game_map::{GameMap, MapLayer, TileData};
use crate::texture_atlas::TextureAtlas;

verus! {

/// Atlas slice reserved for the hover highlight.
pub const HIGHLIGHT_SLICE: usize = 3;

/// The tile the initial ground layer holds at flat cell `k` of a map
/// `w` tiles wide: atlas slice 0, placed at the cell's pixel position,
/// opaque.
pub open spec fn ground_tile(k: int, w: int, tile: Size2) -> TileData {
    TileData {
        param: DrawParam {
            src: Rect { x: 0, y: 0, w: tile.x, h: tile.y },
            dest: Point2 { x: ((k % w) * tile.x) as usize, y: ((k / w) * tile.y) as usize },
        },
        opaque: true,
    }
}

pub struct GameState {
    pub map: GameMap,
    /// The tile currently under the pointer.
    pub curr_mouse_tile: (usize, usize),
    /// The hover-highlight transform; empty until the first frame that
    /// places it, a single entry afterwards.
    pub mouse_params: Vec<DrawParam>,
}

/// The hover-highlight list after one frame: atlas slice
/// `HIGHLIGHT_SLICE`'s transform placed at the hovered tile's screen
/// position, overwriting the previous highlight (or starting the list);
/// untouched when that slice or the hovered tile is out of range.
pub open spec fn spec_hover(s: &GameState) -> Seq<DrawParam> {
    if HIGHLIGHT_SLICE < s.map.tileset.params@.len() && s.curr_mouse_tile.0 <= s.map.width
        && s.curr_mouse_tile.1 <= s.map.height {
        let p = DrawParam {
            src: s.map.tileset.params@[HIGHLIGHT_SLICE as int].src,
            dest: Point2 {
                x: (s.curr_mouse_tile.0 * s.map.tileset.texture_size.x) as usize,
                y: (s.curr_mouse_tile.1 * s.map.tileset.texture_size.y) as usize,
            },
        };
        if s.mouse_params@.len() == 0 {
            seq![p]
        } else {
            s.mouse_params@.update(0, p)
        }
    } else {
        s.mouse_params@
    }
}

impl GameState {
    pub open spec fn wf(&self) -> bool {
        self.map.wf()
    }

    /// Builds the starting state: an atlas over the source image, and a
    /// single ground layer that fills the whole map with opaque copies
    /// of slice 0, each placed at its cell's pixel position. The pointer
    /// starts on tile (0, 0) and no highlight is placed yet.
    pub fn new(texture_size: Size2, image_size: Size2, map_width: usize, map_height: usize) -> (r:
        GameState)
        requires
            texture_size.x > 0,
            texture_size.y > 0,
            texture_size.x <= image_size.x,
            texture_size.y <= image_size.y,
            (image_size.x as int / texture_size.x as int) * (image_size.y as int
                / texture_size.y as int) <= usize::MAX,
            map_width * map_height <= usize::MAX,
            map_width * texture_size.x <= usize::MAX,
            map_height * texture_size.y <= usize::MAX,
        ensures
            r.wf(),
            r.map.changed,
            r.map.width == map_width,
            r.map.height == map_height,
            r.map.tileset.texture_size == texture_size,
            r.map.tileset.image_size == image_size,
            r.map.layers@.len() == 1,
            r.map.layers@[0].tiles@.len() == map_width * map_height,
            forall|k: int|
                0 <= k < map_width * map_height ==> r.map.layers@[0].tiles@[k] == Some(
                    ground_tile(k, map_width as int, texture_size),
                ),
            r.curr_mouse_tile == (0usize, 0usize),
            r.mouse_params@ == Seq::<DrawParam>::empty(),
    {
        let tile_set = TextureAtlas::new(texture_size, image_size);
        proof {
            vstd::arithmetic::div_mod::lemma_div_non_zero(
                image_size.x as int,
                texture_size.x as int,
            );
            vstd::arithmetic::div_mod::lemma_div_non_zero(
                image_size.y as int,
                texture_size.y as int,
            );
            assert(tile_set.rows * tile_set.cols >= 1) by (nonlinear_arith)
                requires
                    tile_set.rows >= 1,
                    tile_set.cols >= 1,
            ;
            lemma_small_mod(0nat, tile_set.cols as nat);
            lemma_div_of0(tile_set.cols as int);
        }
        let p0: DrawParam = match tile_set.get_param(0) {
            Some(p) => p,
            None => unreached(),
        };
        let total: usize = map_width * map_height;
        let mut tiles: Vec<Option<TileData>> = Vec::new();
        let mut index: usize = 0;
        while index < total
            invariant
                total == map_width * map_height,
                p0.src == (Rect { x: 0, y: 0, w: texture_size.x, h: texture_size.y }),
                map_width * texture_size.x <= usize::MAX,
                map_height * texture_size.y <= usize::MAX,
                index <= total,
                tiles@.len() == index,
                forall|k: int|
                    0 <= k < index ==> tiles@[k] == Some(
                        ground_tile(k, map_width as int, texture_size),
                    ),
            decreases total - index,
        {
            proof {
                assert(map_width > 0) by (nonlinear_arith)
                    requires
                        index < map_width * map_height,
                        0 <= map_width,
                        0 <= map_height,
                ;
            }
            let tile_col: usize = index % map_width;
            let tile_row: usize = index / map_width;
            proof {
                lemma_mod_bound(index as int, map_width as int);
                lemma_fundamental_div_mod(index as int, map_width as int);
                assert(tile_row < map_height) by (nonlinear_arith)
                    requires
                        index as int == map_width as int * (tile_row as int) + (index as int
                            % map_width as int),
                        0 <= index as int % map_width as int,
                        index < map_width * map_height,
                        map_width > 0,
                ;
                lemma_mul_inequality(tile_col as int, map_width as int, texture_size.x as int);
                lemma_mul_inequality(tile_row as int, map_height as int, texture_size.y as int);
            }
            let x: usize = tile_col * texture_size.x;
            let y: usize = tile_row * texture_size.y;
            tiles.push(Some(TileData { param: p0.dest(Point2 { x, y }), opaque: true }));
            index = index + 1;
        }
        let layer = MapLayer { tiles };
        let mut layers: Vec<MapLayer> = Vec::new();
        layers.push(layer);
        let map = GameMap::new(map_width, map_height, tile_set, layers);
        GameState { map, curr_mouse_tile: (0, 0), mouse_params: Vec::new() }
    }

    /// One frame's worth of state upkeep: places the hover highlight
    /// over the hovered tile (when the highlight slice and the tile are
    /// in range), then reruns the map's compositing pass.
    pub fn update(&mut self)
        requires
            old(self).wf(),
        ensures
            final(self).wf(),
            final(self).curr_mouse_tile == old(self).curr_mouse_tile,
            final(self).mouse_params@ == spec_hover(old(self)),
            !final(self).map.changed,
            final(self).map.draw_array@ == old(self).map.spec_draws(),
            final(self).map.layers == old(self).map.layers,
            final(self).map.width == old(self).map.width,
            final(self).map.height == old(self).map.height,
            final(self).map.tileset == old(self).map.tileset,
    {
        let hp = self.map.tileset.get_param(HIGHLIGHT_SLICE);
        match hp {
            Some(p) => {
                match self.map.tile_to_coord(self.curr_mouse_tile.0, self.curr_mouse_tile.1) {
                    Some(dest) => {
                        if self.mouse_params.is_empty() {
                            let ghost before = self.mouse_params@;
                            let placed = p.dest(dest);
                            self.mouse_params.push(placed);
                            proof {
                                assert(before.push(placed) =~= seq![placed]);
                            }
                        } else {
                            self.mouse_params[0] = p.dest(dest);
                        }
                    },
                    None => {},
                }
            },
            None => {},
        }
        self.map.update();
    }

    /// Pointer motion: records the tile under the new pointer position,
    /// when that position lies within the viewport; positions outside it
    /// leave the hovered tile as it was.
    pub fn mouse_motion_event(&mut self, x: isize, y: isize, win_width: usize, win_height: usize)
        requires
            old(self).wf(),
        ensures
            final(self).wf(),
            final(self).map == old(self).map,
            final(self).mouse_params == old(self).mouse_params,
            final(self).curr_mouse_tile == (match old(self).map.spec_coord_to_tile(
                x as int,
                y as int,
                win_width as int,
                win_height as int,
            ) {
                Some(pos) => pos,
                None => old(self).curr_mouse_tile,
            }),
    {
        if let Some(pos) = self.map.coord_to_tile(x, y, win_width, win_height) {
            if pos.0 != self.curr_mouse_tile.0 || pos.1 != self.curr_mouse_tile.1 {
                self.curr_mouse_tile = pos;
            }
        }
    }
}

} // verus!
