use spritebatch::draw::{Point2, Rect, Size2};
use spritebatch::game_state::{GameState, HIGHLIGHT_SLICE};

fn state_2x2() -> GameState {
    GameState::new(Size2 { x: 32, y: 32 }, Size2 { x: 64, y: 64 }, 2, 2)
}

#[test]
fn new_state_fills_ground_layer_with_slice_zero() {
    let s = state_2x2();
    assert_eq!(s.map.layers.len(), 1);
    let tiles = &s.map.layers[0].tiles;
    assert_eq!(tiles.len(), 4);
    let expected_dests = [
        Point2 { x: 0, y: 0 },
        Point2 { x: 32, y: 0 },
        Point2 { x: 0, y: 32 },
        Point2 { x: 32, y: 32 },
    ];
    for (k, t) in tiles.iter().enumerate() {
        let t = t.expect("ground layer is full");
        assert_eq!(t.param.src, Rect { x: 0, y: 0, w: 32, h: 32 });
        assert_eq!(t.param.dest, expected_dests[k]);
        assert!(t.opaque);
    }
    assert_eq!(s.curr_mouse_tile, (0, 0));
    assert!(s.mouse_params.is_empty());
    assert!(s.map.changed);
}

#[test]
fn update_places_highlight_and_composites() {
    let mut s = state_2x2();
    s.update();
    // The highlight is the reserved atlas slice at the hovered tile.
    assert_eq!(s.mouse_params.len(), 1);
    assert_eq!(s.mouse_params[0].src, Rect { x: 32, y: 32, w: 32, h: 32 });
    assert_eq!(s.mouse_params[0].dest, Point2 { x: 0, y: 0 });
    // The ground layer is opaque everywhere: one draw entry per cell.
    assert!(!s.map.changed);
    assert_eq!(s.map.draw_array.len(), 4);
}

#[test]
fn update_overwrites_highlight_in_place() {
    let mut s = state_2x2();
    s.update();
    s.mouse_motion_event(40, 5, 64, 64);
    assert_eq!(s.curr_mouse_tile, (1, 0));
    s.update();
    assert_eq!(s.mouse_params.len(), 1);
    assert_eq!(s.mouse_params[0].dest, Point2 { x: 32, y: 0 });
}

#[test]
fn mouse_motion_outside_viewport_keeps_old_tile() {
    let mut s = state_2x2();
    s.mouse_motion_event(40, 40, 64, 64);
    assert_eq!(s.curr_mouse_tile, (1, 1));
    s.mouse_motion_event(-3, 10, 64, 64);
    assert_eq!(s.curr_mouse_tile, (1, 1));
    s.mouse_motion_event(10, 65, 64, 64);
    assert_eq!(s.curr_mouse_tile, (1, 1));
}

#[test]
fn highlight_slice_is_within_default_atlas() {
    let s = state_2x2();
    assert!(HIGHLIGHT_SLICE < s.map.tileset.params.len());
}
