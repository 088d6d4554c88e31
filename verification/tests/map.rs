use spritebatch::draw::{DrawParam, Point2, Rect, Size2};
use spritebatch::game_map::{GameMap, MapLayer, TileData};
use spritebatch::texture_atlas::TextureAtlas;

fn atlas() -> TextureAtlas {
    TextureAtlas::new(Size2 { x: 32, y: 32 }, Size2 { x: 64, y: 64 })
}

fn empty_map(width: usize, height: usize, n_layers: usize) -> GameMap {
    let mut layers = Vec::new();
    for _ in 0..n_layers {
        layers.push(MapLayer::new(width * height));
    }
    GameMap::new(width, height, atlas(), layers)
}

#[test]
fn new_map_starts_stale_and_empty() {
    let m = empty_map(10, 10, 1);
    assert!(m.changed);
    assert!(m.draw_array.is_empty());
    assert_eq!(m.width, 10);
    assert_eq!(m.height, 10);
}

#[test]
fn map_layer_new_is_all_empty() {
    let l = MapLayer::new(6);
    assert_eq!(l.tiles.len(), 6);
    assert!(l.tiles.iter().all(|t| t.is_none()));
}

#[test]
fn map_layer_set_then_get_tile() {
    let mut l = MapLayer::new(12);
    let tile = TileData { param: DrawParam::default(), opaque: true };
    l.set_tile(tile, 1, 2, 4);
    assert_eq!(l.get_tile(1, 2, 4), Some(tile));
    assert_eq!(l.get_tile(0, 0, 4), None);
}

#[test]
fn tile_data_new_with_index() {
    let a = atlas();
    let t = TileData::new_with_index(3, &a).unwrap();
    assert_eq!(t.param.src, Rect { x: 32, y: 32, w: 32, h: 32 });
    assert!(!t.opaque);
    assert!(TileData::new_with_index(4, &a).is_none());
}

#[test]
fn set_tile_then_read_back() {
    let mut m = empty_map(10, 10, 1);
    m.set_tile(3, 4, 0, m.tileset.get_param(0).unwrap());
    let tile = m.layers[0].tiles[4 * 10 + 3].expect("tile was set");
    assert_eq!(tile.param.dest, Point2 { x: 3 * 32, y: 4 * 32 });
    assert_eq!(tile.param.src, Rect { x: 0, y: 0, w: 32, h: 32 });
    assert!(tile.opaque);
    assert!(m.changed);
}

#[test]
fn set_tile_out_of_range_changes_nothing() {
    let mut m = empty_map(10, 10, 1);
    let p = m.tileset.get_param(0).unwrap();
    m.set_tile(10, 4, 0, p);
    m.set_tile(3, 10, 0, p);
    m.set_tile(3, 4, 1, p);
    assert!(m.layers[0].tiles.iter().all(|t| t.is_none()));
}

#[test]
fn tile_to_coord_scales_by_tile_size() {
    let m = empty_map(10, 10, 1);
    assert_eq!(m.tile_to_coord(3, 4), Some(Point2 { x: 96, y: 128 }));
    assert_eq!(m.tile_to_coord(0, 0), Some(Point2 { x: 0, y: 0 }));
    // The bounds are inclusive: one past the last row or column still maps.
    assert_eq!(m.tile_to_coord(10, 10), Some(Point2 { x: 320, y: 320 }));
    assert_eq!(m.tile_to_coord(11, 0), None);
    assert_eq!(m.tile_to_coord(0, 11), None);
}

#[test]
fn tile_to_coord_division_recovers_coordinate() {
    let m = empty_map(10, 10, 1);
    for col in 0..10 {
        for row in 0..10 {
            let p = m.tile_to_coord(col, row).unwrap();
            assert_eq!(p.x / 32, col);
            assert_eq!(p.y / 32, row);
        }
    }
}

#[test]
fn coord_to_tile_rejects_outside_viewport() {
    let m = empty_map(10, 10, 1);
    assert_eq!(m.coord_to_tile(-1, 5, 320, 320), None);
    assert_eq!(m.coord_to_tile(5, -1, 320, 320), None);
    assert_eq!(m.coord_to_tile(321, 5, 320, 320), None);
    assert_eq!(m.coord_to_tile(5, 321, 320, 320), None);
    assert_eq!(m.coord_to_tile(96, 130, 320, 320), Some((3, 4)));
    assert_eq!(m.coord_to_tile(0, 0, 320, 320), Some((0, 0)));
    // The viewport edge itself still counts as inside.
    assert_eq!(m.coord_to_tile(320, 320, 320, 320), Some((10, 10)));
}

#[test]
fn update_on_empty_layers_emits_nothing() {
    let mut m = empty_map(4, 4, 2);
    m.update();
    assert!(!m.changed);
    assert!(m.draw_array.is_empty());
}

#[test]
fn update_emits_single_layer_row_major() {
    let mut m = empty_map(2, 2, 1);
    let p = m.tileset.get_param(0).unwrap();
    for y in 0..2 {
        for x in 0..2 {
            m.set_tile(x, y, 0, p);
        }
    }
    m.update();
    let dests: Vec<Point2> = m.draw_array.iter().map(|d| d.dest).collect();
    assert_eq!(
        dests,
        vec![
            Point2 { x: 0, y: 0 },
            Point2 { x: 32, y: 0 },
            Point2 { x: 0, y: 32 },
            Point2 { x: 32, y: 32 },
        ]
    );
}

#[test]
fn occlusion_emits_only_topmost_opaque_tile() {
    // 1x1 map, two layers, both cells set (set_tile marks tiles opaque):
    // only the topmost tile may be drawn.
    let mut m = empty_map(1, 1, 2);
    let p0 = m.tileset.get_param(0).unwrap();
    let p1 = m.tileset.get_param(1).unwrap();
    m.set_tile(0, 0, 0, p0);
    m.set_tile(0, 0, 1, p1);
    m.update();
    assert_eq!(m.draw_array.len(), 1);
    assert_eq!(m.draw_array[0].src, p1.src);
}

#[test]
fn occlusion_falls_back_to_lower_layer_when_top_is_empty() {
    let mut m = empty_map(1, 1, 2);
    let p0 = m.tileset.get_param(0).unwrap();
    m.set_tile(0, 0, 0, p0);
    m.update();
    assert_eq!(m.draw_array.len(), 1);
    assert_eq!(m.draw_array[0].src, p0.src);
}

#[test]
fn transparent_tiles_let_lower_layers_show() {
    // Bottom layer opaque, top layer transparent: both are drawn,
    // topmost first.
    let a = atlas();
    let mut bottom = MapLayer::new(1);
    let mut top = MapLayer::new(1);
    let bottom_tile = TileData { param: a.params[0].dest(Point2 { x: 0, y: 0 }), opaque: true };
    let top_tile = TileData { param: a.params[1].dest(Point2 { x: 0, y: 0 }), opaque: false };
    bottom.set_tile(bottom_tile, 0, 0, 1);
    top.set_tile(top_tile, 0, 0, 1);
    let mut m = GameMap::new(1, 1, a, vec![bottom, top]);
    m.update();
    assert_eq!(m.draw_array.len(), 2);
    assert_eq!(m.draw_array[0].src, Rect { x: 32, y: 0, w: 32, h: 32 });
    assert_eq!(m.draw_array[1].src, Rect { x: 0, y: 0, w: 32, h: 32 });
}

#[test]
fn update_twice_is_identical_and_skips_recomputation() {
    let mut m = empty_map(3, 3, 1);
    let p = m.tileset.get_param(0).unwrap();
    m.set_tile(1, 1, 0, p);
    m.set_tile(2, 0, 0, p);
    m.update();
    assert!(!m.changed);
    let first = m.draw_array.clone();
    m.update();
    assert!(!m.changed);
    assert_eq!(m.draw_array, first);
}

#[test]
fn set_tile_marks_clean_map_stale_again() {
    let mut m = empty_map(3, 3, 1);
    let p = m.tileset.get_param(0).unwrap();
    m.update();
    assert!(!m.changed);
    m.set_tile(0, 0, 0, p);
    assert!(m.changed);
    m.update();
    assert_eq!(m.draw_array.len(), 1);
}
