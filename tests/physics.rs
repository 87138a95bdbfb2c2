use platformer::aabb::AABB;
use platformer::geometry::{lerp_coord, scale_by_dt, Vector2};
use platformer::moving_object::MovingObject;
use platformer::terrain::{Terrain, TileType};

const TILE: i64 = 128;

/// Rows are given top first; `1` is a block, `2` a one-way platform.
fn grid(rows: &[&str]) -> Terrain {
    let codes: Vec<Vec<usize>> = rows
        .iter()
        .map(|r| {
            r.chars()
                .map(|c| match c {
                    '#' => 1,
                    '=' => 2,
                    _ => 0,
                })
                .collect()
        })
        .collect();
    Terrain::from_codes(&codes, Vector2::new(0, 0), TILE)
}

fn body(x: i64, y: i64) -> MovingObject {
    let aabb = AABB::new_full(Vector2::new(x, y), Vector2::new(64, 128), Vector2::new(1000, 1000));
    MovingObject::new(Vector2::new(x, y), aabb)
}

fn fall_until_grounded(mv: &mut MovingObject, t: &Terrain, dt: u64) -> usize {
    mv.accel = Vector2::new(0, -3000);
    for frame in 0..10_000 {
        mv.update_physics(dt, t);
        if mv.on_ground {
            return frame;
        }
    }
    panic!("never landed");
}

fn floor_level() -> Terrain {
    grid(&[
        ".....", ".....", ".....", ".....", ".....", "#####",
    ])
}

#[test]
fn falls_onto_block_row_at_high_frame_rate() {
    let t = floor_level();
    let mut mv = body(320, 500);
    fall_until_grounded(&mut mv, &t, 4_166);
    assert!(mv.on_ground);
    assert_eq!(mv.velocity.y, 0);
    assert_eq!(mv.position.y, 128);
    assert_eq!(mv.position.y - mv.aabb.half_size().y + mv.aabb.offset.y, 64);
    assert!(!mv.on_platform);
}

#[test]
fn falls_onto_block_row_at_low_frame_rate() {
    let t = floor_level();
    let mut slow = body(320, 500);
    fall_until_grounded(&mut slow, &t, 50_000);
    let mut fast = body(320, 500);
    fall_until_grounded(&mut fast, &t, 4_166);
    assert!(slow.on_ground);
    assert_eq!(slow.velocity.y, 0);
    assert_eq!(slow.position, fast.position);
    assert_eq!(slow.aabb.center.y, 128);
}

#[test]
fn lands_on_one_way_platform_from_above() {
    let t = grid(&[
        ".....", ".....", ".....", ".===.", ".....", "#####",
    ]);
    let mut mv = body(320, 700);
    fall_until_grounded(&mut mv, &t, 16_666);
    assert!(mv.on_ground);
    assert!(mv.on_platform);
    assert_eq!(mv.position.y, 2 * TILE + 64 + 64);
}

#[test]
fn rises_through_one_way_platform_from_below() {
    let t = grid(&[
        ".....", ".....", ".....", ".....", ".===.", ".....", "#####",
    ]);
    let mut mv = body(320, 128);
    mv.velocity = Vector2::new(0, 1600);
    for _ in 0..20 {
        mv.update_physics(16_666, &t);
        assert!(!mv.on_ground);
        assert!(!mv.on_platform);
        assert!(!mv.at_ceiling);
    }
    assert!(mv.position.y > 4 * TILE + 64 + 64);
}

#[test]
fn fast_object_stops_at_thin_wall() {
    let t = grid(&[
        "........................",
        "........#...............",
        "........#...............",
        "........#...............",
        "########################",
    ]);
    let mut mv = body(3 * TILE, 128);
    mv.velocity = Vector2::new(30_000, 0);
    mv.update_physics(50_000, &t);
    assert!(mv.pushes_right_wall);
    assert_eq!(mv.velocity.x, 0);
    assert_eq!(mv.position.x, 8 * TILE - 64 - 32);
    assert!(mv.on_ground);
}

#[test]
fn fast_object_stops_at_thin_wall_moving_left() {
    let t = grid(&[
        "........................",
        "........#...............",
        "........#...............",
        "........#...............",
        "########################",
    ]);
    let mut mv = body(20 * TILE, 128);
    mv.velocity = Vector2::new(-30_000, 0);
    mv.update_physics(50_000, &t);
    assert!(mv.pushes_left_wall);
    assert_eq!(mv.velocity.x, 0);
    assert_eq!(mv.position.x, 8 * TILE + 64 + 32);
}

#[test]
fn rising_object_stops_under_ceiling() {
    let t = grid(&[
        ".....", "#####", ".....", ".....", ".....", "#####",
    ]);
    let mut mv = body(320, 128);
    mv.velocity = Vector2::new(0, 10_000);
    mv.update_physics(50_000, &t);
    assert!(mv.at_ceiling);
    assert_eq!(mv.velocity.y, 0);
    assert_eq!(mv.position.y, 4 * TILE - 64 - 64 - 1);
}

#[test]
fn out_of_grid_is_solid() {
    let t = floor_level();
    assert!(t.is_obstacle(-1, 2));
    assert!(t.is_obstacle(5, 2));
    assert!(t.is_obstacle(2, -1));
    assert!(t.is_obstacle(2, 6));
    assert!(!t.is_obstacle(2, 2));
    assert!(t.is_obstacle(2, 0));
    assert!(!t.is_empty(-3, -3));
    assert!(!t.is_one_way_platform(9, 9));
    assert!(t.is_ground(9, 9));
}

#[test]
fn codes_are_read_top_row_first() {
    let codes = vec![vec![0, 2, 7], vec![1, 0, 0]];
    let t = Terrain::from_codes(&codes, Vector2::new(0, 128), TILE);
    assert_eq!(t.width, 3);
    assert_eq!(t.height, 2);
    assert_eq!(t.get_tile(0, 0), TileType::Block);
    assert_eq!(t.get_tile(1, 1), TileType::OneWay);
    assert_eq!(t.get_tile(2, 1), TileType::Empty);
    assert_eq!(t.get_tile(1, 0), TileType::Empty);
}

#[test]
fn tile_coordinates_round_trip() {
    let t = Terrain::from_codes(&vec![vec![0; 4]; 4], Vector2::new(0, 128), TILE);
    assert_eq!(t.get_tile_x_at_point(63), 0);
    assert_eq!(t.get_tile_x_at_point(64), 1);
    assert_eq!(t.get_tile_x_at_point(-65), -1);
    assert_eq!(t.get_tile_y_at_point(128), 0);
    assert_eq!(t.get_tile_y_at_point(191), 0);
    assert_eq!(t.get_tile_y_at_point(192), 1);
    assert_eq!(t.get_tile_y_at_point(63), -1);
    let p = t.get_map_tile_position(2, 3);
    assert_eq!(p, Vector2::new(256, 512));
    assert_eq!(t.get_tile_at_point(p), Vector2::new(2, 3));
    assert_eq!(t.get_map_tile_position_vec(Vector2::new(-1, 0)), Vector2::new(-128, 128));
}

#[test]
fn box_offset_aligns_feet() {
    let b = AABB::new_full(Vector2::new(300, 800), Vector2::new(116, 200), Vector2::new(700, 800));
    assert_eq!(b.half_size(), Vector2::new(40, 80));
    assert_eq!(b.offset, Vector2::new(0, -20));
    assert_eq!(b.half_size_internal, Vector2::new(58, 100));
}

#[test]
fn boxes_overlap_when_touching() {
    let a = AABB::new_full(Vector2::new(0, 0), Vector2::new(100, 100), Vector2::new(1000, 1000));
    let b = AABB::new_full(Vector2::new(100, 0), Vector2::new(100, 100), Vector2::new(1000, 1000));
    let c = AABB::new_full(Vector2::new(-101, 0), Vector2::new(100, 100), Vector2::new(1000, 1000));
    assert!(a.overlaps(&b));
    assert!(b.overlaps(&a));
    assert!(!a.overlaps(&c));
    assert!(!c.overlaps(&a));
}

#[test]
fn interpolation_rounds_to_nearest() {
    assert_eq!(lerp_coord(0, 10, 1, 3), 3);
    assert_eq!(lerp_coord(0, 10, 2, 3), 7);
    assert_eq!(lerp_coord(10, 0, 1, 4), 8);
    assert_eq!(lerp_coord(5, 9, 0, 1), 5);
    assert_eq!(lerp_coord(5, 9, 1, 1), 9);
    assert_eq!(scale_by_dt(-3000, 4_166), -12);
    assert_eq!(scale_by_dt(1600, 50_000), 80);
}

#[test]
fn integration_follows_acceleration() {
    let t = grid(&["....."; 8]);
    let mut mv = body(320, 500);
    mv.velocity = Vector2::new(100, 0);
    mv.accel = Vector2::new(0, -1000);
    mv.update_physics(100_000, &t);
    assert_eq!(mv.velocity, Vector2::new(100, -100));
    assert_eq!(mv.position, Vector2::new(330, 490));
    assert_eq!(mv.old_position, Vector2::new(320, 500));
    assert_eq!(mv.aabb.center, Vector2::new(330, 490));
}

fn thin_wall() -> Terrain {
    grid(&[
        "........................",
        "........#...............",
        "........#...............",
        "........#...............",
        "########################",
    ])
}

#[test]
fn fast_step_from_flush_right_wall_stays_at_face() {
    let t = thin_wall();
    let mut mv = body(8 * TILE - 64 - 32, 128);
    mv.velocity = Vector2::new(30_000, 0);
    mv.update_physics(50_000, &t);
    assert!(mv.pushes_right_wall);
    assert_eq!(mv.velocity.x, 0);
    assert_eq!(mv.position.x, 8 * TILE - 64 - 32);
}

#[test]
fn fast_step_from_flush_left_wall_stays_at_face() {
    let t = thin_wall();
    let mut mv = body(8 * TILE + 64 + 32, 128);
    mv.velocity = Vector2::new(-30_000, 0);
    mv.update_physics(50_000, &t);
    assert!(mv.pushes_left_wall);
    assert_eq!(mv.velocity.x, 0);
    assert_eq!(mv.position.x, 8 * TILE + 64 + 32);
}

#[test]
fn fast_rise_from_just_under_ceiling_stays_under_it() {
    let t = grid(&[
        ".....", "#####", ".....", ".....", ".....", "#####",
    ]);
    let mut mv = body(320, 4 * TILE - 64 - 1 - 64);
    mv.velocity = Vector2::new(0, 10_000);
    mv.update_physics(50_000, &t);
    assert!(mv.at_ceiling);
    assert_eq!(mv.velocity.y, 0);
    assert_eq!(mv.position.y, 4 * TILE - 64 - 1 - 64);
}

#[test]
fn fast_fall_from_resting_on_floor_stays_on_it() {
    let t = floor_level();
    let mut mv = body(320, 128);
    mv.velocity = Vector2::new(0, -20_000);
    mv.update_physics(50_000, &t);
    assert!(mv.on_ground);
    assert_eq!(mv.velocity.y, 0);
    assert_eq!(mv.position.y, 128);
}
