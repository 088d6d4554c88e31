//! A sprite sheet: a texture atlas over one shared source image. The
//! image itself lives with the host renderer; here only its dimensions
//! and the derived slice grid are kept.

use vstd::prelude::*;
use crate::draw::{DrawParam, Size2};
use crate::texture_atlas::TextureAtlas;

verus! {

pub struct SpriteSheet {
    pub atlas: TextureAtlas,
}

impl SpriteSheet {
    /// Builds the sheet's atlas for an image of size `image_size` cut
    /// into `texture_size` sprites.
    pub fn new(texture_size: Size2, image_size: Size2) -> (r: SpriteSheet)
        requires
            texture_size.x > 0,
            texture_size.y > 0,
            (image_size.x as int / texture_size.x as int) * (image_size.y as int
                / texture_size.y as int) <= usize::MAX,
        ensures
            r.atlas.wf(),
            r.atlas.texture_size == texture_size,
            r.atlas.image_size == image_size,
            forall|i: int| 0 <= i < r.atlas.opaque@.len() ==> !r.atlas.opaque@[i],
    {
        let atlas = TextureAtlas::new(texture_size, image_size);
        SpriteSheet { atlas }
    }

    /// The draw transform of sprite `index`, or `None` past the last one.
    pub fn get_sprite(&self, index: usize) -> (r: Option<DrawParam>)
        ensures
            index < self.atlas.params@.len() ==> r == Some(self.atlas.params@[index as int]),
            index >= self.atlas.params@.len() ==> r is None,
    {
        self.atlas.get_param(index)
    }
}

} // verus!
