//! Input normalization: four held directional signals become one numpad
//! style direction code, 1 through 9 with 5 as neutral.  The mapping is
//! facing-independent; forward/back relative to the opponent is resolved
//! later, in the state machine.

use vstd::prelude::*;

verus! {

/// The four logical directional signals for one combatant, as raw "held"
/// states of its forward, back, up and down controls.
#[derive(Clone, Copy, Debug, PartialEq, Eq, Structural)]
pub struct DirInputs {
    pub forward: bool,
    pub back: bool,
    pub up: bool,
    pub down: bool,
}

impl DirInputs {
    /// Nothing held at all.
    pub open spec fn spec_neutral() -> DirInputs {
        DirInputs { forward: false, back: false, up: false, down: false }
    }

    /// Nothing held at all.
    pub fn neutral() -> (r: DirInputs)
        ensures
            r == DirInputs::spec_neutral(),
    {
        DirInputs { forward: false, back: false, up: false, down: false }
    }
}

/// -1, 0 or 1: the positive signal minus the negative one.
pub open spec fn spec_axis(positive: bool, negative: bool) -> int {
    (if positive { 1int } else { 0int }) - (if negative { 1int } else { 0int })
}

/// The numpad code of a pair of axis values: 5 is neutral, the back axis
/// adds one column, the up axis adds three rows.
pub open spec fn spec_hold_dir(inp: DirInputs) -> int {
    5 + spec_axis(inp.back, inp.forward) + 3 * spec_axis(inp.up, inp.down)
}

/// The code is a down direction (numpad 1, 2 or 3).
pub open spec fn is_down_dir(hold_dir: int) -> bool {
    hold_dir == 1 || hold_dir == 2 || hold_dir == 3
}

/// The code is an up direction (numpad 7, 8 or 9).
pub open spec fn is_up_dir(hold_dir: int) -> bool {
    hold_dir == 7 || hold_dir == 8 || hold_dir == 9
}

/// Maps the four held signals to their numpad direction code.  Every
/// combination lands on one of the nine codes; 0 is never produced.
pub fn hold_dir_from_inputs(inp: &DirInputs) -> (r: i64)
    ensures
        r == spec_hold_dir(*inp),
        1 <= r <= 9,
{
    let dir_x: i64 = (if inp.back { 1 } else { 0 }) - (if inp.forward { 1 } else { 0 });
    let dir_y: i64 = (if inp.up { 1 } else { 0 }) - (if inp.down { 1 } else { 0 });
    if dir_x == 1 {
        if dir_y == 1 {
            9
        } else if dir_y == 0 {
            6
        } else {
            3
        }
    } else if dir_x == 0 {
        if dir_y == 1 {
            8
        } else if dir_y == 0 {
            5
        } else {
            2
        }
    } else {
        if dir_y == 1 {
            7
        } else if dir_y == 0 {
            4
        } else {
            1
        }
    }
}

} // verus!
