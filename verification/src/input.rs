//! Pure reductions over one tick's input event batch.
//!
//! Keyboard and UI interaction events arrive from the host as discrete
//! per-tick batches. Each semantic query ("was escape pressed", "did a
//! button reach clicked") is a pure reduction over that batch,
//! recomputed fresh every tick — never a persistent flag, so a stale
//! trigger cannot survive into a later tick.

use vstd::prelude::*;

verus! {

/// One keyboard event of a tick's batch: whether the key went down
/// (rather than up), and whether it was the escape key.
#[derive(Clone, Copy, Debug, PartialEq, Eq, Structural)]
pub struct KeyEvent {
    pub pressed: bool,
    pub escape: bool,
}

/// The interaction state a UI widget reported this tick.
#[derive(Clone, Copy, Debug, PartialEq, Eq, Structural)]
pub enum Interaction {
    /// The pointer pressed the widget this tick.
    Clicked,
    /// The pointer hovers over the widget.
    Hovered,
    /// No interaction.
    Idle,
}

/// An RGB color with channels in milli-units (1000 = full intensity).
#[derive(Clone, Copy, Debug, PartialEq, Eq, Structural)]
pub struct Rgb {
    pub r: i64,
    pub g: i64,
    pub b: i64,
}

pub open spec fn some_escape_press(events: Seq<KeyEvent>) -> bool {
    exists|i: int| 0 <= i < events.len() && events[i].pressed && events[i].escape
}

/// Whether this tick's keyboard batch holds a down event of the escape
/// key. (Feed the result to an `EdgeDetector` to keep a held key from
/// re-firing across ticks.)
pub fn escape_pressed(events: &Vec<KeyEvent>) -> (r: bool)
    ensures
        r == some_escape_press(events@),
{
    let mut i: usize = 0;
    while i < events.len()
        invariant
            i <= events@.len(),
            !some_escape_press(events@.take(i as int)),
        decreases events@.len() - i,
    {
        let e = events[i];
        if e.pressed && e.escape {
            proof {
                assert(events@.take(events@.len() as int) == events@);
                assert(events@[i as int].pressed && events@[i as int].escape);
            }
            return true;
        }
        proof {
            assert forall|j: int| 0 <= j < i + 1 implies !((#[trigger] events@.take(i + 1)[j]).pressed
                && events@.take(i + 1)[j].escape) by {
                if j < i {
                    assert(events@.take(i as int)[j] == events@.take(i + 1)[j]);
                    assert(!some_escape_press(events@.take(i as int)));
                }
            }
        }
        i = i + 1;
    }
    proof {
        assert(events@.take(events@.len() as int) =~= events@);
    }
    false
}

pub open spec fn some_click(states: Seq<Interaction>) -> bool {
    exists|i: int| 0 <= i < states.len() && states[i] == Interaction::Clicked
}

/// Whether any of the given widgets' interactions reached "clicked"
/// this tick (the batch holds the interactions of the widgets being
/// asked about, e.g. every start button).
pub fn any_clicked(states: &Vec<Interaction>) -> (r: bool)
    ensures
        r == some_click(states@),
{
    let mut i: usize = 0;
    while i < states.len()
        invariant
            i <= states@.len(),
            !some_click(states@.take(i as int)),
        decreases states@.len() - i,
    {
        if matches!(states[i], Interaction::Clicked) {
            proof {
                assert(states@.take(states@.len() as int) == states@);
                assert(states@[i as int] == Interaction::Clicked);
            }
            return true;
        }
        proof {
            assert forall|j: int| 0 <= j < i + 1 implies #[trigger] states@.take(i + 1)[j]
                != Interaction::Clicked by {
                if j < i {
                    assert(states@.take(i as int)[j] == states@.take(i + 1)[j]);
                    assert(!some_click(states@.take(i as int)));
                }
            }
        }
        i = i + 1;
    }
    proof {
        assert(states@.take(states@.len() as int) =~= states@);
    }
    false
}

/// The fill color a button shows for an interaction state: pressed
/// buttons darken, hovered buttons dim slightly, idle buttons are
/// plain white.
pub fn button_fill(state: Interaction) -> (c: Rgb)
    ensures
        state == Interaction::Clicked ==> c == (Rgb { r: 750, g: 750, b: 750 }),
        state == Interaction::Hovered ==> c == (Rgb { r: 800, g: 800, b: 800 }),
        state == Interaction::Idle ==> c == (Rgb { r: 1000, g: 1000, b: 1000 }),
{
    match state {
        Interaction::Clicked => Rgb { r: 750, g: 750, b: 750 },
        Interaction::Hovered => Rgb { r: 800, g: 800, b: 800 },
        Interaction::Idle => Rgb { r: 1000, g: 1000, b: 1000 },
    }
}

} // verus!
