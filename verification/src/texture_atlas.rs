//! Slices a single source image into a row-major grid of equally sized
//! tiles. Each slice gets a draw transform whose source rectangle covers
//! exactly one tile, plus an opacity flag (initially false).

use vstd::prelude::*;
use vstd::arithmetic::div_mod::{lemma_fundamental_div_mod, lemma_mod_bound};
use vstd::arithmetic::mul::lemma_mul_inequality;
use crate::draw::{DrawParam, Point2, Rect, Size2};

verus! {

/// `p` is the draw transform of atlas slice number `i`: its source
/// rectangle is the `i`-th tile in row-major order over a grid with
/// `cols` columns of `tile`-sized cells, and its destination is the
/// origin (a destination is only chosen when the slice is placed).
pub open spec fn is_slice_param(p: DrawParam, i: int, cols: int, tile: Size2) -> bool {
    &&& p.src.x == (i % cols) * tile.x
    &&& p.src.y == (i / cols) * tile.y
    &&& p.src.w == tile.x
    &&& p.src.h == tile.y
    &&& p.dest == (Point2 { x: 0, y: 0 })
}

/// The source rectangle of `p` lies within an image of size `image`.
pub open spec fn slice_in_image(p: DrawParam, image: Size2) -> bool {
    &&& p.src.x + p.src.w <= image.x
    &&& p.src.y + p.src.h <= image.y
}

/// A single source image partitioned into a `rows` × `cols` grid of
/// `texture_size`-sized slices, addressed by row-major index.
pub struct TextureAtlas {
    /// Size of one tile, in pixels.
    pub texture_size: Size2,
    /// Size of the whole source image, in pixels.
    pub image_size: Size2,
    /// Number of full tile rows that fit in the image.
    pub rows: usize,
    /// Number of full tile columns that fit in the image.
    pub cols: usize,
    /// One draw transform per slice, row-major.
    pub params: Vec<DrawParam>,
    /// One opacity flag per slice, parallel to `params`.
    pub opaque: Vec<bool>,
}

impl TextureAtlas {
    /// Structural invariant: the grid dimensions come from flooring the
    /// image size by the tile size, the two per-slice vectors are
    /// parallel and full, and every slice is the expected tile-sized
    /// rectangle, lying within the image.
    pub open spec fn wf(&self) -> bool {
        &&& self.texture_size.x > 0
        &&& self.texture_size.y > 0
        &&& self.cols == self.image_size.x as int / self.texture_size.x as int
        &&& self.rows == self.image_size.y as int / self.texture_size.y as int
        &&& self.params@.len() == self.rows * self.cols
        &&& self.opaque@.len() == self.params@.len()
        &&& forall|i: int|
            0 <= i < self.params@.len() ==> is_slice_param(
                #[trigger] self.params@[i],
                i,
                self.cols as int,
                self.texture_size,
            )
        &&& forall|i: int|
            0 <= i < self.params@.len() ==> slice_in_image(#[trigger] self.params@[i], self.image_size)
    }

    /// Builds the atlas for an image of size `image_size` cut into
    /// `texture_size` tiles: `cols = floor(image_w / tile_w)` by
    /// `rows = floor(image_h / tile_h)` slices, every slice transparent.
    pub fn new(texture_size: Size2, image_size: Size2) -> (r: TextureAtlas)
        requires
            texture_size.x > 0,
            texture_size.y > 0,
            (image_size.x as int / texture_size.x as int) * (image_size.y as int
                / texture_size.y as int) <= usize::MAX,
        ensures
            r.wf(),
            r.texture_size == texture_size,
            r.image_size == image_size,
            r.cols == image_size.x as int / texture_size.x as int,
            r.rows == image_size.y as int / texture_size.y as int,
            forall|i: int| 0 <= i < r.opaque@.len() ==> !r.opaque@[i],
    {
        let cols: usize = image_size.x / texture_size.x;
        let rows: usize = image_size.y / texture_size.y;
        proof {
            assert(rows * cols <= usize::MAX) by (nonlinear_arith)
                requires
                    cols * rows <= usize::MAX,
            ;
        }
        let total: usize = rows * cols;
        let mut params: Vec<DrawParam> = Vec::new();
        let mut opaque: Vec<bool> = Vec::new();
        let mut i: usize = 0;
        while i < total
            invariant
                total == rows * cols,
                cols == image_size.x as int / texture_size.x as int,
                rows == image_size.y as int / texture_size.y as int,
                texture_size.x > 0,
                texture_size.y > 0,
                i <= total,
                params@.len() == i,
                opaque@.len() == i,
                forall|k: int|
                    0 <= k < i ==> is_slice_param(#[trigger] params@[k], k, cols as int, texture_size),
                forall|k: int| 0 <= k < i ==> slice_in_image(#[trigger] params@[k], image_size),
                forall|k: int| 0 <= k < i ==> !opaque@[k],
            decreases total - i,
        {
            proof {
                assert(cols > 0) by (nonlinear_arith)
                    requires
                        i < rows * cols,
                        0 <= rows,
                        0 <= cols,
                ;
            }
            let col: usize = i % cols;
            let row: usize = i / cols;
            proof {
                lemma_mod_bound(i as int, cols as int);
                lemma_fundamental_div_mod(i as int, cols as int);
                assert(row < rows) by (nonlinear_arith)
                    requires
                        i as int == cols as int * (row as int) + (i as int % cols as int),
                        0 <= i as int % cols as int,
                        i < rows * cols,
                        cols > 0,
                ;
                lemma_fundamental_div_mod(image_size.x as int, texture_size.x as int);
                lemma_mod_bound(image_size.x as int, texture_size.x as int);
                assert(cols * texture_size.x <= image_size.x);
                lemma_mul_inequality(col as int + 1, cols as int, texture_size.x as int);
                assert((col as int + 1) * texture_size.x == col as int * texture_size.x
                    + texture_size.x) by (nonlinear_arith);
                lemma_fundamental_div_mod(image_size.y as int, texture_size.y as int);
                lemma_mod_bound(image_size.y as int, texture_size.y as int);
                assert(rows * texture_size.y <= image_size.y);
                lemma_mul_inequality(row as int + 1, rows as int, texture_size.y as int);
                assert((row as int + 1) * texture_size.y == row as int * texture_size.y
                    + texture_size.y) by (nonlinear_arith);
            }
            let x: usize = col * texture_size.x;
            let y: usize = row * texture_size.y;
            let rect = Rect { x, y, w: texture_size.x, h: texture_size.y };
            params.push(DrawParam::default().src(rect));
            opaque.push(false);
            i = i + 1;
        }
        TextureAtlas { texture_size, image_size, rows, cols, params, opaque }
    }

    /// The draw transform of slice `index`, or `None` past the last slice.
    pub fn get_param(&self, index: usize) -> (r: Option<DrawParam>)
        ensures
            index < self.params@.len() ==> r == Some(self.params@[index as int]),
            index >= self.params@.len() ==> r is None,
    {
        if index < self.params.len() {
            Some(self.params[index])
        } else {
            None
        }
    }

    /// The draw transform and opacity flag of slice `index`, or `None`
    /// past the last slice.
    pub fn get(&self, index: usize) -> (r: Option<(DrawParam, bool)>)
        requires
            self.opaque@.len() == self.params@.len(),
        ensures
            index < self.params@.len() ==> r == Some(
                (self.params@[index as int], self.opaque@[index as int]),
            ),
            index >= self.params@.len() ==> r is None,
    {
        if index < self.params.len() {
            Some((self.params[index], self.opaque[index]))
        } else {
            None
        }
    }

    /// Total number of slices, `rows * cols`.
    pub fn count(&self) -> (r: usize)
        requires
            self.wf(),
        ensures
            r == self.rows * self.cols,
            r == self.params@.len(),
    {
        let n: usize = self.params.len();
        proof {
            assert(self.cols * self.rows == self.rows * self.cols) by (nonlinear_arith);
            assert(self.cols * self.rows == n);
        }
        self.cols * self.rows
    }
}

/// Every slice's source rectangle lies within the source image; after
/// normalization by the image size, every rectangle therefore lies
/// within `[0,1] × [0,1]`.
pub proof fn lemma_slice_in_image(a: &TextureAtlas, i: int)
    requires
        a.wf(),
        0 <= i < a.params@.len(),
    ensures
        a.params@[i].src.x + a.params@[i].src.w <= a.image_size.x,
        a.params@[i].src.y + a.params@[i].src.h <= a.image_size.y,
{
}

} // verus!
