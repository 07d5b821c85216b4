//! Logical input actions and the per-frame snapshot the controller reads.
//!
//! Mapping physical keys and buttons to these actions is the input device's
//! business; the game logic only ever sees which actions are held this frame
//! and which edges fired.

use vstd::prelude::*;

verus! {

/// All bindable actions.
#[derive(Debug, PartialEq, Eq, Structural, Hash, Copy, Clone)]
pub enum Action {
    MoveForward,
    MoveBackward,
    MoveLeft,
    MoveRight,
    Accelerate,
    Strike,
    Menu,
}

/// Snapshot of the input service for one frame: one flag per action the
/// drone controller reads, plus the falling edge of Strike that triggers
/// the impulse release.
#[derive(Debug, PartialEq, Eq, Structural, Copy, Clone)]
pub struct InputState {
    pub move_forward: bool,
    pub move_backward: bool,
    pub move_left: bool,
    pub move_right: bool,
    pub accelerate: bool,
    pub strike: bool,
    pub strike_deactivated: bool,
}

/// Whether an action is in the list of actions held this frame.
fn contains_action(held: &Vec<Action>, action: Action) -> (r: bool)
    ensures
        r == held@.contains(action),
{
    let mut i: usize = 0;
    while i < held.len()
        invariant
            0 <= i <= held@.len(),
            forall|k: int| 0 <= k < i ==> held@[k] != action,
        decreases held@.len() - i,
    {
        if held[i] == action {
            return true;
        }
        i = i + 1;
    }
    false
}

impl InputState {
    /// The snapshot for one frame, from the list of actions the input
    /// device reports held and the Strike falling edge. Menu is not a
    /// movement action and leaves the snapshot untouched.
    pub fn from_actions(held: &Vec<Action>, strike_deactivated: bool) -> (r: InputState)
        ensures
            r.move_forward == held@.contains(Action::MoveForward),
            r.move_backward == held@.contains(Action::MoveBackward),
            r.move_left == held@.contains(Action::MoveLeft),
            r.move_right == held@.contains(Action::MoveRight),
            r.accelerate == held@.contains(Action::Accelerate),
            r.strike == held@.contains(Action::Strike),
            r.strike_deactivated == strike_deactivated,
    {
        InputState {
            move_forward: contains_action(held, Action::MoveForward),
            move_backward: contains_action(held, Action::MoveBackward),
            move_left: contains_action(held, Action::MoveLeft),
            move_right: contains_action(held, Action::MoveRight),
            accelerate: contains_action(held, Action::Accelerate),
            strike: contains_action(held, Action::Strike),
            strike_deactivated,
        }
    }

    /// A frame on which nothing is pressed and no edge fires.
    pub fn released() -> (r: InputState)
        ensures
            r == (InputState {
                move_forward: false,
                move_backward: false,
                move_left: false,
                move_right: false,
                accelerate: false,
                strike: false,
                strike_deactivated: false,
            }),
    {
        InputState {
            move_forward: false,
            move_backward: false,
            move_left: false,
            move_right: false,
            accelerate: false,
            strike: false,
            strike_deactivated: false,
        }
    }
}

} // verus!
