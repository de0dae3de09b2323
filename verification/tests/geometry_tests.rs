use breakout_core::geometry::ArenaBounds;
use breakout_core::geometry::Vec2;
use breakout_core::geometry::WallLocation;

fn standard() -> ArenaBounds {
    ArenaBounds { left: -450_000, right: 450_000, bottom: -300_000, top: 300_000, thickness: 10_000 }
}

#[test]
fn standard_bounds_are_valid() {
    assert!(standard().is_valid());
    assert_eq!(ArenaBounds::standard(), standard());
}

#[test]
fn left_wall_size_and_position() {
    // boundaries left=-450, right=450, bottom=-300, top=300, thickness=10:
    // the left wall is 10 x 610 units, centred at (-450, 0).
    let b = standard();
    let size = WallLocation::Left.size(&b);
    assert_eq!(size, Vec2 { x: 10_000, y: 610_000 });
    let pos = WallLocation::Left.position(&b);
    assert_eq!(pos, Vec2 { x: -450_000, y: 0 });
}

#[test]
fn all_wall_sizes_positive() {
    let b = standard();
    for w in [WallLocation::Left, WallLocation::Right, WallLocation::Bottom, WallLocation::Top] {
        let size = w.size(&b);
        assert!(size.x > 0);
        assert!(size.y > 0);
    }
}

#[test]
fn wall_sizes_exact() {
    let b = standard();
    assert_eq!(WallLocation::Right.size(&b), Vec2 { x: 10_000, y: 610_000 });
    assert_eq!(WallLocation::Bottom.size(&b), Vec2 { x: 910_000, y: 10_000 });
    assert_eq!(WallLocation::Top.size(&b), Vec2 { x: 910_000, y: 10_000 });
}

#[test]
fn opposite_walls_separated_by_arena_side() {
    let b = standard();
    let left = WallLocation::Left.position(&b);
    let right = WallLocation::Right.position(&b);
    assert_eq!(right.x - left.x, b.right - b.left);
    let bottom = WallLocation::Bottom.position(&b);
    let top = WallLocation::Top.position(&b);
    assert_eq!(top.y - bottom.y, b.top - b.bottom);
}

#[test]
fn corner_overlap_nonzero() {
    // The top wall spans the arena width plus one thickness, so it
    // reaches past each vertical wall's boundary line by half a
    // thickness on each side.
    let b = standard();
    let top_size = WallLocation::Top.size(&b);
    let left_pos = WallLocation::Left.position(&b);
    let left_size = WallLocation::Left.size(&b);
    // doubled coordinates keep the half-thickness offsets integral
    let top_min_x2 = 2 * WallLocation::Top.position(&b).x - top_size.x;
    let left_min_x2 = 2 * left_pos.x - left_size.x;
    let left_max_x2 = 2 * left_pos.x + left_size.x;
    assert_eq!(top_min_x2, left_min_x2);
    assert_eq!(left_max_x2 - top_min_x2, 2 * b.thickness);
    assert!(left_max_x2 - top_min_x2 > 0);
}

#[test]
fn degenerate_width_rejected() {
    let b = ArenaBounds { left: 450_000, right: 450_000, ..standard() };
    assert!(!b.is_valid());
}

#[test]
fn inverted_height_rejected() {
    let b = ArenaBounds { bottom: 300_000, top: -300_000, ..standard() };
    assert!(!b.is_valid());
}

#[test]
fn zero_thickness_rejected() {
    let b = ArenaBounds { thickness: 0, ..standard() };
    assert!(!b.is_valid());
}

#[test]
fn asymmetric_arena_valid() {
    let b = ArenaBounds { left: -100_000, right: 300_000, bottom: 0, top: 50_000, thickness: 5_000 };
    assert!(b.is_valid());
    assert_eq!(WallLocation::Left.size(&b), Vec2 { x: 5_000, y: 55_000 });
    assert_eq!(WallLocation::Top.size(&b), Vec2 { x: 405_000, y: 5_000 });
    assert_eq!(WallLocation::Top.position(&b), Vec2 { x: 0, y: 50_000 });
}
