use breakout_core::motion::Transform;
use breakout_core::motion::Velocity;
use breakout_core::motion::integrate_tick;
use breakout_core::motion::integrate_ticks;
use breakout_core::motion::isqrt;
use breakout_core::motion::scaled_direction;

fn at(x: i64, y: i64) -> Transform {
    Transform { x, y, z: 1_000, scale_x: 30_000, scale_y: 30_000, scale_z: 0 }
}

#[test]
fn isqrt_exact_values() {
    assert_eq!(isqrt(0), 0);
    assert_eq!(isqrt(1), 1);
    assert_eq!(isqrt(3), 1);
    assert_eq!(isqrt(4), 2);
    assert_eq!(isqrt(499_849), 707);
    assert_eq!(isqrt(500_000), 707);
    assert_eq!(isqrt(500_000_000_000), 707_106);
    assert_eq!(isqrt(3_999_999_999_999_999_999), 1_999_999_999);
}

#[test]
fn spawn_velocity_from_diagonal_direction() {
    // direction (0.5, -0.5) normalized, times speed 400: the components
    // are 400 / sqrt(2) = 282.84... units/s.
    let v = scaled_direction(500, -500, 400_000);
    assert_eq!(v, Velocity { x: 282_843, y: -282_843 });
    let vx_units = v.x as f64 / 1000.0;
    let vy_units = v.y as f64 / 1000.0;
    assert!((vx_units - 282.8).abs() < 0.1);
    assert!((vy_units + 282.8).abs() < 0.1);
}

#[test]
fn axis_aligned_direction_keeps_full_speed() {
    let v = scaled_direction(1_000, 0, 400_000);
    assert_eq!(v, Velocity { x: 400_000, y: 0 });
    let v = scaled_direction(0, -250, 100_000);
    assert_eq!(v, Velocity { x: 0, y: -100_000 });
}

#[test]
fn one_tick_moves_by_sixtieth_of_velocity() {
    let v = Velocity { x: 282_843, y: -282_843 };
    let t = integrate_tick(&at(0, -50_000), &v);
    // 282843 / 60 = 4714, truncated towards zero on both axes
    assert_eq!(t.x, 4_714);
    assert_eq!(t.y, -54_714);
    assert_eq!(t.z, 1_000);
    assert_eq!(t.scale_x, 30_000);
}

#[test]
fn slow_velocity_truncates_towards_zero() {
    let v = Velocity { x: 59, y: -59 };
    let t = integrate_tick(&at(10, -10), &v);
    assert_eq!(t.x, 10);
    assert_eq!(t.y, -10);
    let v = Velocity { x: 61, y: -61 };
    let t = integrate_tick(&at(10, -10), &v);
    assert_eq!(t.x, 11);
    assert_eq!(t.y, -11);
}

#[test]
fn sixty_ticks_accumulate_linearly() {
    // One simulated second from the ball's spawn state: the position
    // advances by 60 per-tick displacements on each axis.
    let v = Velocity { x: 282_843, y: -282_843 };
    let t = integrate_ticks(&at(0, -50_000), &v, 60);
    assert_eq!(t.x, 282_840);
    assert_eq!(t.y, -332_840);
    let x_units = t.x as f64 / 1000.0;
    let y_units = t.y as f64 / 1000.0;
    assert!((x_units - 282.8).abs() < 0.1);
    assert!((y_units + 332.8).abs() < 0.1);
}

#[test]
fn n_ticks_equal_n_single_ticks() {
    let v = Velocity { x: 12_345, y: -999 };
    let mut step = at(7_000, -3_000);
    for _ in 0..17 {
        step = integrate_tick(&step, &v);
    }
    let direct = integrate_ticks(&at(7_000, -3_000), &v, 17);
    assert_eq!(step, direct);
}

#[test]
fn zero_ticks_change_nothing() {
    let v = Velocity { x: 282_843, y: -282_843 };
    let start = at(0, -50_000);
    assert_eq!(integrate_ticks(&start, &v, 0), start);
}
