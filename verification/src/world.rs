//! The entity world and the per-state entity lifecycle.
//!
//! Entities are bags of components: a scope marker naming the state they
//! belong to, a kind, a transform, and optionally a velocity and a
//! collider tag. Entering a state spawns its entities (walls and the
//! ball for the playing arena, the widgets for the menu); leaving it
//! removes exactly the entities carrying its scope marker.

use vstd::prelude::*;
use vstd::seq_lib::group_seq_properties;
use vstd::pervasive::VecAdditionalExecFns;
use crate::geometry::ArenaBounds;
use crate::geometry::WallLocation;
use crate::geometry::wall_position_spec;
use crate::geometry::wall_size_spec;
use crate::motion::POS_LIMIT;
use crate::motion::Transform;
use crate::motion::Velocity;
use crate::motion::direction_norm_micro;
use crate::motion::integrate_tick;
use crate::motion::per_tick;
use crate::motion::scaled_axis;
use crate::motion::scaled_direction;
use crate::state::GameState;

verus! {

/// Where the ball is spawned, in milli-units (x, y) and depth layer z.
pub const BALL_START_X: i64 = 0;
pub const BALL_START_Y: i64 = -50_000;
pub const BALL_START_Z: i64 = 1_000;

/// Render scale of the ball, in milli-units (a 30-unit square sprite).
pub const BALL_SCALE_XY: i64 = 30_000;

/// Speed of the ball at spawn, in milli-units per second (400 units/s).
pub const BALL_SPEED: i64 = 400_000;

/// Initial direction of the ball, in milli-units: (0.5, -0.5) before
/// normalization.
pub const BALL_DIR_X: i64 = 500;
pub const BALL_DIR_Y: i64 = -500;

/// The buttons offered by the main menu.
#[derive(Clone, Copy, Debug, PartialEq, Eq, Structural)]
pub enum ButtonId {
    Level1,
    Exit,
}

/// What an entity is.
#[derive(Clone, Copy, Debug, PartialEq, Eq, Structural)]
pub enum EntityKind {
    Wall(WallLocation),
    Ball,
    MenuRoot,
    MenuButton(ButtonId),
}

/// One entity of the simulation world.
#[derive(Clone, Copy, Debug)]
pub struct Entity {
    /// The state this entity belongs to; it is removed when that state
    /// is left.
    pub scope: GameState,
    pub kind: EntityKind,
    pub transform: Transform,
    pub velocity: Option<Velocity>,
    /// Tags the entity as an obstacle. No collision resolution is part
    /// of this core; the tag only marks walls for a later extension.
    pub collider: bool,
}

impl Entity {
    /// Velocities are bounded, and any moving entity sits where one
    /// more tick of motion stays representable.
    pub open spec fn wf(self) -> bool {
        self.velocity is Some ==> {
            &&& self.velocity->0.wf()
            &&& -POS_LIMIT < self.transform.x < POS_LIMIT
            &&& -POS_LIMIT < self.transform.y < POS_LIMIT
        }
    }
}

/// The entity after one tick of motion: its translation advanced by the
/// per-tick displacement of its velocity, everything else unchanged.
/// An entity without a velocity does not move, and a moving entity
/// stops at the edge of the representable coordinate range instead of
/// overflowing (the range is far beyond any reachable position).
pub open spec fn moved_entity(e: Entity) -> Entity {
    if e.velocity is Some {
        let nx = e.transform.x + per_tick(e.velocity->0.x as int);
        let ny = e.transform.y + per_tick(e.velocity->0.y as int);
        if -POS_LIMIT < nx < POS_LIMIT && -POS_LIMIT < ny < POS_LIMIT {
            Entity {
                transform: Transform { x: nx as i64, y: ny as i64, ..e.transform },
                ..e
            }
        } else {
            e
        }
    } else {
        e
    }
}

/// The world with every entity of the given scope removed; the others
/// keep their order.
pub open spec fn scope_removed(s: Seq<Entity>, scope: GameState) -> Seq<Entity> {
    s.filter(|e: Entity| e.scope != scope)
}

/// True of the wall entity for wall `w` of arena `b`: positioned and
/// sized by the geometry model, scoped to `Playing`, tagged as a
/// collider, motionless, at depth 0 (walls render behind the ball).
pub open spec fn is_wall_entity(e: Entity, w: WallLocation, b: ArenaBounds) -> bool {
    &&& e.scope == GameState::Playing
    &&& e.kind == EntityKind::Wall(w)
    &&& e.transform.x == wall_position_spec(w, b).0
    &&& e.transform.y == wall_position_spec(w, b).1
    &&& e.transform.z == 0
    &&& e.transform.scale_x == wall_size_spec(w, b).0
    &&& e.transform.scale_y == wall_size_spec(w, b).1
    &&& e.transform.scale_z == 1_000
    &&& e.velocity is None
    &&& e.collider == true
}

/// True of the ball entity: spawned at the starting position with the
/// initial direction normalized and scaled to the ball speed, scoped to
/// `Playing`, not a collider.
pub open spec fn is_ball_entity(e: Entity) -> bool {
    &&& e.scope == GameState::Playing
    &&& e.kind == EntityKind::Ball
    &&& e.transform.x == BALL_START_X
    &&& e.transform.y == BALL_START_Y
    &&& e.transform.z == BALL_START_Z
    &&& e.transform.scale_x == BALL_SCALE_XY
    &&& e.transform.scale_y == BALL_SCALE_XY
    &&& e.transform.scale_z == 0
    &&& e.velocity is Some
    &&& e.velocity->0.x == scaled_axis(
        BALL_DIR_X as int,
        BALL_SPEED as int,
        direction_norm_micro(BALL_DIR_X as int, BALL_DIR_Y as int),
    )
    &&& e.velocity->0.y == scaled_axis(
        BALL_DIR_Y as int,
        BALL_SPEED as int,
        direction_norm_micro(BALL_DIR_X as int, BALL_DIR_Y as int),
    )
    &&& e.collider == false
}

/// True of a menu widget entity of the given kind: scoped to `Menu`,
/// motionless, not a collider. The widgets' on-screen layout is the
/// render host's concern; their transforms are left at the origin.
pub open spec fn is_menu_entity(e: Entity, kind: EntityKind) -> bool {
    &&& e.scope == GameState::Menu
    &&& e.kind == kind
    &&& e.transform == (Transform { x: 0, y: 0, z: 0, scale_x: 0, scale_y: 0, scale_z: 0 })
    &&& e.velocity is None
    &&& e.collider == false
}

/// The five entities appended by entering `Playing`: the four walls in
/// a fixed order, then the ball.
pub open spec fn is_playing_setup(added: Seq<Entity>, b: ArenaBounds) -> bool {
    &&& added.len() == 5
    &&& is_wall_entity(added[0], WallLocation::Left, b)
    &&& is_wall_entity(added[1], WallLocation::Right, b)
    &&& is_wall_entity(added[2], WallLocation::Bottom, b)
    &&& is_wall_entity(added[3], WallLocation::Top, b)
    &&& is_ball_entity(added[4])
}

/// The three entities appended by entering `Menu`: the root node and
/// the two buttons.
pub open spec fn is_menu_setup(added: Seq<Entity>) -> bool {
    &&& added.len() == 3
    &&& is_menu_entity(added[0], EntityKind::MenuRoot)
    &&& is_menu_entity(added[1], EntityKind::MenuButton(ButtonId::Level1))
    &&& is_menu_entity(added[2], EntityKind::MenuButton(ButtonId::Exit))
}

/// The simulation world: the entities currently alive, in spawn order.
#[derive(Debug)]
pub struct World {
    pub entities: Vec<Entity>,
}

impl View for World {
    type V = Seq<Entity>;

    open spec fn view(&self) -> Seq<Entity> {
        self.entities@
    }
}

impl World {
    pub open spec fn wf(self) -> bool {
        forall|i: int| 0 <= i < self@.len() ==> #[trigger] self@[i].wf()
    }

    /// No entity of the given scope is alive.
    pub open spec fn scope_empty(self, scope: GameState) -> bool {
        forall|i: int| 0 <= i < self@.len() ==> #[trigger] self@[i].scope != scope
    }

    /// An empty world.
    pub fn new() -> (w: World)
        ensures
            w@ =~= Seq::<Entity>::empty(),
            w.wf(),
    {
        World { entities: Vec::new() }
    }

    /// Remove every entity carrying the given scope marker, keeping all
    /// others in their order. Removing from a world whose scope is
    /// already empty leaves it unchanged (see
    /// `lemma_teardown_idempotent`).
    pub fn teardown(&mut self, scope: GameState)
        requires
            old(self).wf(),
        ensures
            final(self)@ == scope_removed(old(self)@, scope),
            final(self).scope_empty(scope),
            final(self).wf(),
    {
        broadcast use group_seq_properties;

        let ghost all = self@;
        let mut kept: Vec<Entity> = Vec::new();
        let mut i: usize = 0;
        while i < self.entities.len()
            invariant
                i <= all.len(),
                self@ == all,
                self.wf(),
                kept@ == scope_removed(all.take(i as int), scope),
                forall|j: int| 0 <= j < kept@.len() ==> #[trigger] kept@[j].scope != scope,
                forall|j: int| 0 <= j < kept@.len() ==> #[trigger] kept@[j].wf(),
            decreases all.len() - i,
        {
            let e = self.entities[i];
            let keep = match (e.scope, scope) {
                (GameState::Menu, GameState::Menu) => false,
                (GameState::Playing, GameState::Playing) => false,
                _ => true,
            };
            proof {
                assert(all.take(i + 1).drop_last() =~= all.take(i as int));
                assert(all.take(i + 1).last() == all[i as int]);
                reveal(Seq::filter);
            }
            if keep {
                kept.push(e);
            }
            i = i + 1;
        }
        proof {
            assert(all.take(all.len() as int) =~= all);
        }
        self.entities = kept;
    }

    /// Spawn the entities of the `Playing` state: the four walls of the
    /// arena and the ball. Existing entities are untouched.
    pub fn setup_playing(&mut self, b: &ArenaBounds)
        requires
            old(self).wf(),
            b.wf(),
        ensures
            final(self)@.len() == old(self)@.len() + 5,
            final(self)@.take(old(self)@.len() as int) == old(self)@,
            is_playing_setup(final(self)@.skip(old(self)@.len() as int), *b),
            final(self).wf(),
    {
        let ghost before = self@;
        self.spawn_wall(WallLocation::Left, b);
        self.spawn_wall(WallLocation::Right, b);
        self.spawn_wall(WallLocation::Bottom, b);
        self.spawn_wall(WallLocation::Top, b);
        let dir_speed = scaled_direction(BALL_DIR_X, BALL_DIR_Y, BALL_SPEED);
        let ball = Entity {
            scope: GameState::Playing,
            kind: EntityKind::Ball,
            transform: Transform {
                x: BALL_START_X,
                y: BALL_START_Y,
                z: BALL_START_Z,
                scale_x: BALL_SCALE_XY,
                scale_y: BALL_SCALE_XY,
                scale_z: 0,
            },
            velocity: Some(dir_speed),
            collider: false,
        };
        self.entities.push(ball);
        proof {
            assert(self@.take(before.len() as int) =~= before);
        }
    }

    /// Spawn one wall entity.
    fn spawn_wall(&mut self, w: WallLocation, b: &ArenaBounds)
        requires
            old(self).wf(),
            b.wf(),
        ensures
            final(self)@.len() == old(self)@.len() + 1,
            final(self)@.take(old(self)@.len() as int) == old(self)@,
            is_wall_entity(final(self)@.last(), w, *b),
            final(self).wf(),
    {
        let pos = w.position(b);
        let size = w.size(b);
        let wall = Entity {
            scope: GameState::Playing,
            kind: EntityKind::Wall(w),
            transform: Transform {
                x: pos.x,
                y: pos.y,
                z: 0,
                scale_x: size.x,
                scale_y: size.y,
                scale_z: 1_000,
            },
            velocity: None,
            collider: true,
        };
        self.entities.push(wall);
        proof {
            assert(self@.take(old(self)@.len() as int) =~= old(self)@);
        }
    }

    /// Spawn the entities of the `Menu` state: the menu root node and
    /// the two buttons. Existing entities are untouched.
    pub fn setup_menu(&mut self)
        requires
            old(self).wf(),
        ensures
            final(self)@.len() == old(self)@.len() + 3,
            final(self)@.take(old(self)@.len() as int) == old(self)@,
            is_menu_setup(final(self)@.skip(old(self)@.len() as int)),
            final(self).wf(),
    {
        let ghost before = self@;
        self.entities.push(menu_entity(EntityKind::MenuRoot));
        self.entities.push(menu_entity(EntityKind::MenuButton(ButtonId::Level1)));
        self.entities.push(menu_entity(EntityKind::MenuButton(ButtonId::Exit)));
        proof {
            assert(self@.take(before.len() as int) =~= before);
        }
    }

    /// One tick of the motion integrator: every entity that has a
    /// velocity advances by its per-tick displacement; everything else
    /// is untouched.
    pub fn apply_velocity(&mut self)
        requires
            old(self).wf(),
        ensures
            final(self)@.len() == old(self)@.len(),
            forall|i: int|
                0 <= i < old(self)@.len() ==> final(self)@[i] == moved_entity(
                    #[trigger] old(self)@[i],
                ),
            final(self).wf(),
    {
        let ghost all = self@;
        let mut i: usize = 0;
        while i < self.entities.len()
            invariant
                i <= all.len(),
                self@.len() == all.len(),
                forall|j: int| 0 <= j < i ==> self@[j] == moved_entity(#[trigger] all[j]),
                forall|j: int| i <= j < all.len() ==> self@[j] == #[trigger] all[j],
                forall|j: int| 0 <= j < all.len() ==> #[trigger] all[j].wf(),
                forall|j: int| 0 <= j < self@.len() ==> #[trigger] self@[j].wf(),
            decreases all.len() - i,
        {
            let e = self.entities[i];
            proof {
                assert(e == all[i as int]);
                assert(all[i as int].wf());
            }
            match e.velocity {
                Some(v) => {
                    let t = integrate_tick(&e.transform, &v);
                    let within = -POS_LIMIT < t.x && t.x < POS_LIMIT && -POS_LIMIT < t.y
                        && t.y < POS_LIMIT;
                    if within {
                        let moved = Entity { transform: t, ..e };
                        self.entities.set(i, moved);
                    }
                },
                None => {},
            }
            i = i + 1;
        }
    }
}

/// Build one menu widget entity.
fn menu_entity(kind: EntityKind) -> (e: Entity)
    ensures
        is_menu_entity(e, kind),
        e.wf(),
{
    Entity {
        scope: GameState::Menu,
        kind,
        transform: Transform { x: 0, y: 0, z: 0, scale_x: 0, scale_y: 0, scale_z: 0 },
        velocity: None,
        collider: false,
    }
}

/// Tearing a scope down is idempotent: removing a scope from a world
/// where that scope is already empty changes nothing, so a second
/// teardown of the same scope has no effect.
pub proof fn lemma_teardown_idempotent(s: Seq<Entity>, scope: GameState)
    ensures
        scope_removed(scope_removed(s, scope), scope) == scope_removed(s, scope),
    decreases s.len(),
{
    lemma_scope_empty_teardown_noop(scope_removed(s, scope), scope);
}

/// Removing a scope that has no entities in the world is a no-op.
pub proof fn lemma_scope_empty_teardown_noop(s: Seq<Entity>, scope: GameState)
    requires
        forall|i: int| 0 <= i < s.len() ==> #[trigger] s[i].scope != scope,
    ensures
        scope_removed(s, scope) == s,
    decreases s.len(),
{
    reveal(Seq::filter);
    if s.len() > 0 {
        lemma_scope_empty_teardown_noop(s.drop_last(), scope);
        assert(scope_removed(s, scope) =~= s);
    } else {
        assert(scope_removed(s, scope) =~= s);
    }
}

} // verus!
