//! The discrete action states a combatant can be in, and their display
//! labels.  Only a subset of the variants has transition logic today; the
//! rest are legitimately constructible states that the state machine never
//! enters or leaves.

use vstd::prelude::*;

verus! {

/// Discrete action state of a combatant, most actionable first.
#[derive(Clone, Copy, Debug, PartialEq, Eq, Structural)]
pub enum Status {
    Idle,
    WalkingForward,
    WalkingBack,
    Crouch,
    Air,
    ForwardJump,
    NeutralJump,
    BackJump,
    Dashing,
    Startup,
    Attacking,
    Jumpsquat,
    Block,
    EndLag,
    Hitstun,
}

impl Status {
    /// The display name of each variant, as a sequence of characters.
    pub open spec fn spec_label(self) -> Seq<char> {
        match self {
            Status::Idle => "Idle"@,
            Status::WalkingForward => "WalkingForward"@,
            Status::WalkingBack => "WalkingBack"@,
            Status::Crouch => "Crouch"@,
            Status::Air => "Air"@,
            Status::ForwardJump => "ForwardJump"@,
            Status::NeutralJump => "NeutralJump"@,
            Status::BackJump => "BackJump"@,
            Status::Dashing => "Dashing"@,
            Status::Startup => "Startup"@,
            Status::Attacking => "Attacking"@,
            Status::Jumpsquat => "Jumpsquat"@,
            Status::Block => "Block"@,
            Status::EndLag => "EndLag"@,
            Status::Hitstun => "Hitstun"@,
        }
    }

    /// Display label of the state.  No behaviour depends on the string
    /// form; it exists for the renderer and for diagnostics.
    pub fn label(&self) -> (r: &'static str)
        ensures
            r@ == self.spec_label(),
    {
        match self {
            Status::Idle => "Idle",
            Status::WalkingForward => "WalkingForward",
            Status::WalkingBack => "WalkingBack",
            Status::Crouch => "Crouch",
            Status::Air => "Air",
            Status::ForwardJump => "ForwardJump",
            Status::NeutralJump => "NeutralJump",
            Status::BackJump => "BackJump",
            Status::Dashing => "Dashing",
            Status::Startup => "Startup",
            Status::Attacking => "Attacking",
            Status::Jumpsquat => "Jumpsquat",
            Status::Block => "Block",
            Status::EndLag => "EndLag",
            Status::Hitstun => "Hitstun",
        }
    }
}

} // verus!
