//! The state machine driving the game: Menu and Playing, the triggers
//! that switch between them, and the per-tick step that composes input
//! handling, the entity lifecycle and the motion integrator.
//!
//! Each tick consumes one immutable input snapshot. Triggers are
//! edge-derived: the escape key fires only on the tick its key goes
//! down, and button clicks arrive as per-tick click events. At most one
//! transition happens per tick, with precedence quit > cancel > start;
//! a trigger whose source state is not current has no effect. On a
//! transition the exiting state's entities are torn down before the
//! entering state's are spawned.

use vstd::prelude::*;
use crate::geometry::ArenaBounds;
use crate::state::GameState;
use crate::world::World;
use crate::world::is_menu_setup;
use crate::world::is_playing_setup;
use crate::world::moved_entity;
use crate::world::scope_removed;

verus! {

/// The raw input snapshot of one tick: the level of the escape key and
/// the click events that reached the two menu buttons this tick.
#[derive(Clone, Copy, Debug, PartialEq, Eq, Structural)]
pub struct TickInput {
    /// Whether the escape key is held down during this tick.
    pub escape_down: bool,
    /// Whether the start button's interaction reached "clicked" this tick.
    pub level1_clicked: bool,
    /// Whether the exit button's interaction reached "clicked" this tick.
    pub exit_clicked: bool,
}

/// Turns the level of a key into a key-down edge: it fires on the first
/// tick the key is observed down and not again while the key is held.
#[derive(Clone, Copy, Debug, PartialEq, Eq, Structural)]
pub struct EdgeDetector {
    /// Whether the key was down on the previous tick.
    pub prev_down: bool,
}

impl EdgeDetector {
    pub fn new() -> (d: EdgeDetector)
        ensures
            d.prev_down == false,
    {
        EdgeDetector { prev_down: false }
    }

    /// Feed one tick's key level; true exactly on a down edge.
    pub fn observe(&mut self, down: bool) -> (fired: bool)
        ensures
            fired == (down && !old(self).prev_down),
            final(self).prev_down == down,
    {
        let fired = down && !self.prev_down;
        self.prev_down = down;
        fired
    }
}

/// What the state machine does with one tick's triggers.
#[derive(Clone, Copy, Debug, PartialEq, Eq, Structural)]
pub enum Decision {
    /// Terminate the process (handled by the surrounding application).
    Quit,
    /// Leave Playing for Menu.
    Cancel,
    /// Leave Menu for Playing.
    Start,
    /// No transition this tick.
    Stay,
}

/// The transition decision for one tick: precedence is quit over cancel
/// over start, and cancel and start are armed only while their source
/// state is current.
pub open spec fn decide_spec(state: GameState, start: bool, cancel: bool, quit: bool) -> Decision {
    if quit {
        Decision::Quit
    } else if cancel && state == GameState::Playing {
        Decision::Cancel
    } else if start && state == GameState::Menu {
        Decision::Start
    } else {
        Decision::Stay
    }
}

/// Decide this tick's transition from the current state and the three
/// semantic triggers.
pub fn decide(state: GameState, start: bool, cancel: bool, quit: bool) -> (d: Decision)
    ensures
        d == decide_spec(state, start, cancel, quit),
{
    if quit {
        Decision::Quit
    } else if cancel && matches!(state, GameState::Playing) {
        Decision::Cancel
    } else if start && matches!(state, GameState::Menu) {
        Decision::Start
    } else {
        Decision::Stay
    }
}

/// The whole game: the authoritative current state, the entity world,
/// the arena configuration and the escape-key edge detector.
#[derive(Debug)]
pub struct Game {
    pub state: GameState,
    pub world: World,
    pub bounds: ArenaBounds,
    pub esc: EdgeDetector,
}

impl Game {
    pub open spec fn wf(self) -> bool {
        &&& self.bounds.wf()
        &&& self.world.wf()
    }

    /// A fresh game: in the Menu state with exactly the menu entities
    /// alive. The bounds must describe a valid arena (check with
    /// `ArenaBounds::is_valid` first; an invalid configuration is a
    /// fatal startup error).
    pub fn new(bounds: ArenaBounds) -> (g: Game)
        requires
            bounds.wf(),
        ensures
            g.state == GameState::Menu,
            g.bounds == bounds,
            g.esc.prev_down == false,
            is_menu_setup(g.world@),
            g.wf(),
    {
        let mut world = World::new();
        world.setup_menu();
        proof {
            assert(world@.skip(0) =~= world@);
        }
        Game { state: GameState::Menu, world, bounds, esc: EdgeDetector::new() }
    }

    /// One simulation tick.
    ///
    /// The escape edge and the button clicks become triggers; at most
    /// one transition runs, with precedence quit > cancel > start. A
    /// quit leaves the state and the world untouched and returns true:
    /// terminating the process is the surrounding application's job.
    /// On cancel (escape edge while Playing) the Playing entities are
    /// torn down, then the menu is set up; on start (start click while
    /// Menu) the Menu entities are torn down, then the arena is set up.
    /// On a tick without a transition the motion integrator advances
    /// every moving entity — only in Playing; in Menu nothing moves.
    pub fn tick(&mut self, input: TickInput) -> (quit: bool)
        requires
            old(self).wf(),
        ensures
            final(self).wf(),
            final(self).bounds == old(self).bounds,
            final(self).esc.prev_down == input.escape_down,
            quit == input.exit_clicked,
            // Quit wins over everything and changes nothing else.
            input.exit_clicked ==> {
                &&& final(self).state == old(self).state
                &&& final(self).world@ == old(self).world@
            },
            // Cancel: escape edge while Playing returns to the menu.
            (!input.exit_clicked && old(self).state == GameState::Playing && input.escape_down
                && !old(self).esc.prev_down) ==> {
                &&& final(self).state == GameState::Menu
                &&& final(self).world@.take(
                    scope_removed(old(self).world@, GameState::Playing).len() as int,
                ) == scope_removed(old(self).world@, GameState::Playing)
                &&& is_menu_setup(
                    final(self).world@.skip(
                        scope_removed(old(self).world@, GameState::Playing).len() as int,
                    ),
                )
                &&& final(self).world@.len() == scope_removed(
                    old(self).world@,
                    GameState::Playing,
                ).len() + 3
                &&& final(self).world.scope_empty(GameState::Playing)
            },
            // Start: a start click while in the menu enters Playing.
            (!input.exit_clicked && old(self).state == GameState::Menu && input.level1_clicked)
                ==> {
                &&& final(self).state == GameState::Playing
                &&& final(self).world@.take(
                    scope_removed(old(self).world@, GameState::Menu).len() as int,
                ) == scope_removed(old(self).world@, GameState::Menu)
                &&& is_playing_setup(
                    final(self).world@.skip(
                        scope_removed(old(self).world@, GameState::Menu).len() as int,
                    ),
                    old(self).bounds,
                )
                &&& final(self).world@.len() == scope_removed(
                    old(self).world@,
                    GameState::Menu,
                ).len() + 5
                &&& final(self).world.scope_empty(GameState::Menu)
            },
            // No transition while Playing: one tick of motion.
            (!input.exit_clicked && old(self).state == GameState::Playing && !(input.escape_down
                && !old(self).esc.prev_down)) ==> {
                &&& final(self).state == GameState::Playing
                &&& final(self).world@.len() == old(self).world@.len()
                &&& forall|i: int|
                    0 <= i < old(self).world@.len() ==> final(self).world@[i] == moved_entity(
                        #[trigger] old(self).world@[i],
                    )
            },
            // No transition while in the menu: nothing changes.
            (!input.exit_clicked && old(self).state == GameState::Menu && !input.level1_clicked)
                ==> {
                &&& final(self).state == GameState::Menu
                &&& final(self).world@ == old(self).world@
            },
    {
        let esc_edge = self.esc.observe(input.escape_down);
        let d = decide(self.state, input.level1_clicked, esc_edge, input.exit_clicked);
        match d {
            Decision::Quit => true,
            Decision::Cancel => {
                self.world.teardown(GameState::Playing);
                let ghost torn = self.world@;
                self.world.setup_menu();
                self.state = GameState::Menu;
                proof {
                    assert forall|i: int| 0 <= i < self.world@.len() implies #[trigger] self
                        .world@[i].scope != GameState::Playing by {
                        if i >= torn.len() {
                            assert(self.world@.skip(torn.len() as int)[i - torn.len()]
                                == self.world@[i]);
                        } else {
                            assert(self.world@.take(torn.len() as int)[i] == self.world@[i]);
                        }
                    }
                }
                false
            },
            Decision::Start => {
                self.world.teardown(GameState::Menu);
                let ghost torn = self.world@;
                let bounds = self.bounds;
                self.world.setup_playing(&bounds);
                self.state = GameState::Playing;
                proof {
                    assert forall|i: int| 0 <= i < self.world@.len() implies #[trigger] self
                        .world@[i].scope != GameState::Menu by {
                        if i >= torn.len() {
                            assert(self.world@.skip(torn.len() as int)[i - torn.len()]
                                == self.world@[i]);
                        } else {
                            assert(self.world@.take(torn.len() as int)[i] == self.world@[i]);
                        }
                    }
                }
                false
            },
            Decision::Stay => {
                if matches!(self.state, GameState::Playing) {
                    self.world.apply_velocity();
                }
                false
            },
        }
    }
}

} // verus!
