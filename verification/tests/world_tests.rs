use breakout_core::geometry::ArenaBounds;
use breakout_core::state::GameState;
use breakout_core::world::ButtonId;
use breakout_core::world::EntityKind;
use breakout_core::world::World;

#[test]
fn menu_setup_spawns_root_and_two_buttons() {
    let mut w = World::new();
    w.setup_menu();
    assert_eq!(w.entities.len(), 3);
    assert!(matches!(w.entities[0].kind, EntityKind::MenuRoot));
    assert!(matches!(w.entities[1].kind, EntityKind::MenuButton(ButtonId::Level1)));
    assert!(matches!(w.entities[2].kind, EntityKind::MenuButton(ButtonId::Exit)));
    for e in &w.entities {
        assert_eq!(e.scope, GameState::Menu);
        assert!(e.velocity.is_none());
        assert!(!e.collider);
    }
}

#[test]
fn playing_setup_spawns_walls_and_ball() {
    let mut w = World::new();
    let b = ArenaBounds::standard();
    w.setup_playing(&b);
    assert_eq!(w.entities.len(), 5);
    // four colliding walls, then the ball
    for e in &w.entities[..4] {
        assert!(matches!(e.kind, EntityKind::Wall(_)));
        assert!(e.collider);
        assert!(e.velocity.is_none());
        assert_eq!(e.scope, GameState::Playing);
    }
    let left = &w.entities[0];
    assert_eq!(left.transform.x, -450_000);
    assert_eq!(left.transform.y, 0);
    assert_eq!(left.transform.scale_x, 10_000);
    assert_eq!(left.transform.scale_y, 610_000);
    let ball = &w.entities[4];
    assert!(matches!(ball.kind, EntityKind::Ball));
    assert_eq!(ball.scope, GameState::Playing);
    assert_eq!(ball.transform.x, 0);
    assert_eq!(ball.transform.y, -50_000);
    assert_eq!(ball.transform.z, 1_000);
    assert_eq!(ball.transform.scale_x, 30_000);
    let v = ball.velocity.expect("ball must move");
    assert_eq!(v.x, 282_843);
    assert_eq!(v.y, -282_843);
    assert!(!ball.collider);
}

#[test]
fn teardown_removes_only_matching_scope() {
    let mut w = World::new();
    w.setup_menu();
    let b = ArenaBounds::standard();
    w.setup_playing(&b);
    assert_eq!(w.entities.len(), 8);
    w.teardown(GameState::Menu);
    assert_eq!(w.entities.len(), 5);
    for e in &w.entities {
        assert_eq!(e.scope, GameState::Playing);
    }
    // order of the survivors is kept
    assert!(matches!(w.entities[0].kind, EntityKind::Wall(_)));
    assert!(matches!(w.entities[4].kind, EntityKind::Ball));
}

#[test]
fn teardown_twice_is_harmless() {
    let mut w = World::new();
    w.setup_menu();
    w.teardown(GameState::Menu);
    assert_eq!(w.entities.len(), 0);
    // the scope is already empty: a second teardown has no effect
    w.teardown(GameState::Menu);
    assert_eq!(w.entities.len(), 0);
}

#[test]
fn teardown_of_absent_scope_changes_nothing() {
    let mut w = World::new();
    w.setup_menu();
    let before: Vec<EntityKind> = w.entities.iter().map(|e| e.kind).collect();
    w.teardown(GameState::Playing);
    let after: Vec<EntityKind> = w.entities.iter().map(|e| e.kind).collect();
    assert_eq!(before, after);
}

#[test]
fn teardown_on_empty_world_is_noop() {
    let mut w = World::new();
    w.teardown(GameState::Menu);
    w.teardown(GameState::Playing);
    assert_eq!(w.entities.len(), 0);
}

#[test]
fn apply_velocity_moves_only_moving_entities() {
    let mut w = World::new();
    let b = ArenaBounds::standard();
    w.setup_playing(&b);
    w.apply_velocity();
    // walls have no velocity and stay put
    assert_eq!(w.entities[0].transform.x, -450_000);
    assert_eq!(w.entities[0].transform.y, 0);
    // the ball advances by velocity / 60, truncated towards zero
    assert_eq!(w.entities[4].transform.x, 4_714);
    assert_eq!(w.entities[4].transform.y, -54_714);
    // velocity itself is unchanged
    let v = w.entities[4].velocity.expect("ball must move");
    assert_eq!(v.x, 282_843);
    assert_eq!(v.y, -282_843);
}
