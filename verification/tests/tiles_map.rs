//! The tile grid, the course map and the fresh session.

use paga::game::GameState;
use paga::map::GameMap;
use paga::tiles::{TileGrid, TileType, GRID_H, GRID_W, HOLE_CELL_X, HOLE_CELL_Y};

#[test]
fn built_in_course_has_a_full_wall_perimeter() {
    let g = TileGrid::new();
    for x in 0..GRID_W {
        assert_eq!(g.tile_at(x, 0), TileType::Wall);
        assert_eq!(g.tile_at(x, GRID_H - 1), TileType::Wall);
    }
    for y in 0..GRID_H {
        assert_eq!(g.tile_at(0, y), TileType::Wall);
        assert_eq!(g.tile_at(GRID_W - 1, y), TileType::Wall);
    }
}

#[test]
fn built_in_course_holds_one_cup_on_ground() {
    let g = TileGrid::new();
    assert_eq!(g.tile_at(HOLE_CELL_X, HOLE_CELL_Y), TileType::Hole);
    assert_eq!(g.tile_at(HOLE_CELL_X - 1, HOLE_CELL_Y), TileType::Ground);
    assert_eq!(g.tile_at(20, 3), TileType::Ground);
}

#[test]
fn layout_codes_map_to_tile_types() {
    let mut codes = vec![0u8; GRID_W * GRID_H];
    codes[0] = 1;
    codes[1] = 2;
    codes[2] = 3;
    codes[3] = 7;  // out of the palette: reads as ground
    codes[GRID_W + 5] = 3;
    let g = TileGrid::from_codes(&codes);
    assert_eq!(g.tile_at(0, 0), TileType::Wall);
    assert_eq!(g.tile_at(1, 0), TileType::Portal);
    assert_eq!(g.tile_at(2, 0), TileType::Hole);
    assert_eq!(g.tile_at(3, 0), TileType::Ground);
    assert_eq!(g.tile_at(5, 1), TileType::Hole);
    assert_eq!(g.tile_at(10, 10), TileType::Ground);
}

#[test]
fn map_exposes_its_bounds() {
    let m = GameMap::new();
    assert_eq!(m.left(), 0);
    assert_eq!(m.top(), 0);
    assert_eq!(m.right(), 640);
    assert_eq!(m.bottom(), 368);
    assert_eq!(m.size().x, 640);
    assert_eq!(m.size().y, 368);
    assert_eq!(m.center().x, 320);
    assert_eq!(m.center().y, 184);
    assert_eq!(m.point().x, 0);
    assert_eq!(m.point().y, 0);
}

#[test]
fn fresh_session_aims_from_the_tee() {
    let g = GameState::new();
    assert!(matches!(g.state, paga::game::GolfState::Aiming));
    assert_eq!(g.ball.point.x, 320);
    assert_eq!(g.ball.point.y, 48);
    assert_eq!(g.ball_ref().point().x, 320);
}

#[test]
fn palette_decoding_is_pixel_exact() {
    let decoded = paga::sprites::map_color_to_rgba(&[0u8, 1, 2, 3, 9]);
    assert_eq!(
        decoded,
        vec![
            128u8, 128, 128, 255, // ground grey
            255, 255, 255, 255, // wall white
            73, 39, 245, 255, // portal blue
            0, 0, 0, 255, // hole black; the code 9 contributes nothing
        ]
    );
}

#[test]
fn ball_sprite_box_is_eight_by_eight() {
    let b = paga::ball::Ball::new_at_loc(10, 10);
    assert_eq!(b.size(), (8, 8));
    assert_eq!(b.sprite.pixels.len(), 256);
    assert_eq!(b.center().x, 14);
    assert_eq!(b.left(), 10);
    assert_eq!(b.right(), 18);
    assert_eq!(b.top(), 10);
    assert_eq!(b.bottom(), 18);
}
