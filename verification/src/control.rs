//! The control mapper: raw key-down state in, a walk/jump intent for the
//! external locomotion solver out.
//!
//! The four movement keys contribute player-local unit directions (forward,
//! back, left, right), so the raw direction is a coefficient pair along the
//! player's forward and right axes, each in {-1, 0, 1}.  Normalizing and
//! scaling by the fixed walk speed therefore has only finitely many exact
//! outcomes, which lets the whole mapping stay in integer milliunits
//! (thousandths of a world unit): a single axis gets the full speed, a
//! diagonal gets the speed divided by the square root of two, rounded to
//! the milliunit grid, and the zero direction stays zero — there is no
//! divide-by-zero normalization.  The desired facing comes from the
//! camera's forward vector projected onto the horizontal plane; a camera
//! looking straight up or down projects to the zero vector and yields no
//! facing request instead of a degenerate direction.

use vstd::prelude::*;

verus! {

/// One world unit, in milliunits.
pub const MILLI: i32 = 1000;

/// The fixed walk speed: 20 units per second, in milliunits.
pub const SPEED_MILLI: i32 = 20000;

/// The walk speed divided by the square root of two, rounded to the
/// milliunit grid: each axis of a diagonal intent.
pub const SPEED_DIAG_MILLI: i32 = 14142;

/// The fixed jump height: 2.5 units, in milliunits.
pub const JUMP_HEIGHT_MILLI: i32 = 2500;

/// The locomotion solver's float height: 4 units, in milliunits.
pub const FLOAT_HEIGHT_MILLI: i32 = 4000;

/// Instantaneous key-down state for the control set, one flag per
/// direction key plus the jump key.
#[derive(Clone, Copy, PartialEq, Eq, Structural, Debug)]
pub struct KeyInput {
    pub forward: bool,
    pub back: bool,
    pub left: bool,
    pub right: bool,
    pub jump: bool,
}

/// The desired velocity, as coefficients along the player's local forward
/// and right axes, in milliunits per second.
#[derive(Clone, Copy, PartialEq, Eq, Structural, Debug)]
pub struct MoveVelocity {
    pub forward_milli: i32,
    pub right_milli: i32,
}

/// The desired facing, as the horizontal components of the camera's
/// forward vector.  Only its orientation matters to the solver; it is
/// deliberately not normalized.
#[derive(Clone, Copy, PartialEq, Eq, Structural, Debug)]
pub struct FacingDir {
    pub x_milli: i32,
    pub z_milli: i32,
}

/// The camera's forward vector in world space, in milliunits.
#[derive(Clone, Copy, PartialEq, Eq, Structural, Debug)]
pub struct CamVector {
    pub x_milli: i32,
    pub y_milli: i32,
    pub z_milli: i32,
}

/// What one fixed simulation step hands to the locomotion solver.
#[derive(Clone, Copy, PartialEq, Eq, Structural, Debug)]
pub struct WalkIntent {
    pub velocity: MoveVelocity,
    pub facing: Option<FacingDir>,
    pub float_height_milli: i32,
    pub jump_height_milli: Option<i32>,
}

/// The raw coefficient along the player's forward axis: +1 for the forward
/// key, -1 for the back key, 0 when neither or both are held.
pub open spec fn spec_forward_coeff(k: KeyInput) -> int {
    (if k.forward {
        1int
    } else {
        0int
    }) - (if k.back {
        1int
    } else {
        0int
    })
}

/// The raw coefficient along the player's right axis: +1 for the right
/// key, -1 for the left key, 0 when neither or both are held.
pub open spec fn spec_right_coeff(k: KeyInput) -> int {
    (if k.right {
        1int
    } else {
        0int
    }) - (if k.left {
        1int
    } else {
        0int
    })
}

/// The normalized-and-scaled desired velocity for a key state: zero stays
/// zero, a single axis gets the full speed, a diagonal gets the diagonal
/// speed on each axis.
pub open spec fn spec_desired_velocity(k: KeyInput) -> MoveVelocity {
    let a = spec_forward_coeff(k);
    let b = spec_right_coeff(k);
    if a == 0 && b == 0 {
        MoveVelocity { forward_milli: 0, right_milli: 0 }
    } else if b == 0 {
        MoveVelocity { forward_milli: (a * SPEED_MILLI) as i32, right_milli: 0 }
    } else if a == 0 {
        MoveVelocity { forward_milli: 0, right_milli: (b * SPEED_MILLI) as i32 }
    } else {
        MoveVelocity {
            forward_milli: (a * SPEED_DIAG_MILLI) as i32,
            right_milli: (b * SPEED_DIAG_MILLI) as i32,
        }
    }
}

/// Sum the pressed keys' unit directions, normalize (zero stays zero) and
/// scale by the fixed walk speed.
pub fn desired_velocity(k: KeyInput) -> (v: MoveVelocity)
    ensures
        v == spec_desired_velocity(k),
{
    let a: i32 = (if k.forward {
        1
    } else {
        0
    }) - (if k.back {
        1
    } else {
        0
    });
    let b: i32 = (if k.right {
        1
    } else {
        0
    }) - (if k.left {
        1
    } else {
        0
    });
    if a == 0 && b == 0 {
        MoveVelocity { forward_milli: 0, right_milli: 0 }
    } else if b == 0 {
        MoveVelocity { forward_milli: a * SPEED_MILLI, right_milli: 0 }
    } else if a == 0 {
        MoveVelocity { forward_milli: 0, right_milli: b * SPEED_MILLI }
    } else {
        MoveVelocity { forward_milli: a * SPEED_DIAG_MILLI, right_milli: b * SPEED_DIAG_MILLI }
    }
}

/// The desired velocity is a true normalization to the fixed walk speed:
/// with no net direction it is the zero vector (never a degenerate
/// normalize), and with any net direction its squared magnitude lies
/// within one milliunit of the walk speed — a diagonal is speed-long, not
/// twice speed-long.
pub proof fn lemma_velocity_normalized(k: KeyInput)
    ensures
        ({
            let v = spec_desired_velocity(k);
            let m = (v.forward_milli * v.forward_milli + v.right_milli * v.right_milli) as int;
            &&& ((spec_forward_coeff(k) == 0 && spec_right_coeff(k) == 0) <==> m == 0)
            &&& (m != 0 ==> (SPEED_MILLI - 1) * (SPEED_MILLI - 1) < m <= SPEED_MILLI
                * SPEED_MILLI)
        }),
{
    let a = spec_forward_coeff(k);
    let b = spec_right_coeff(k);
    let v = spec_desired_velocity(k);
    if a == 0 && b == 0 {
        assert(v.forward_milli == 0 && v.right_milli == 0);
    } else if b == 0 {
        assert(a == 1 || a == -1);
        assert(v.forward_milli == 20000 || v.forward_milli == -20000);
        assert(v.forward_milli * v.forward_milli == 400000000);
    } else if a == 0 {
        assert(b == 1 || b == -1);
        assert(v.right_milli == 20000 || v.right_milli == -20000);
        assert(v.right_milli * v.right_milli == 400000000);
    } else {
        assert(a == 1 || a == -1);
        assert(b == 1 || b == -1);
        assert(v.forward_milli == 14142 || v.forward_milli == -14142);
        assert(v.right_milli == 14142 || v.right_milli == -14142);
        assert(v.forward_milli * v.forward_milli == 199996164);
        assert(v.right_milli * v.right_milli == 199996164);
    }
    assert((SPEED_MILLI - 1) * (SPEED_MILLI - 1) == 399960001);
    assert(SPEED_MILLI * SPEED_MILLI == 400000000);
}

/// The facing the camera calls for: its forward vector with the vertical
/// component removed, or nothing when that projection is the zero vector.
pub open spec fn spec_desired_facing(forward: CamVector) -> Option<FacingDir> {
    if forward.x_milli == 0 && forward.z_milli == 0 {
        Option::None
    } else {
        Option::Some(FacingDir { x_milli: forward.x_milli, z_milli: forward.z_milli })
    }
}

/// Project the camera's forward vector onto the horizontal plane.  A
/// degenerate projection — the camera looking straight up or down — yields
/// no facing request rather than an invalid direction.
pub fn desired_facing(forward: CamVector) -> (r: Option<FacingDir>)
    ensures
        r == spec_desired_facing(forward),
        (forward.x_milli == 0 && forward.z_milli == 0) <==> r is None,
{
    if forward.x_milli == 0 && forward.z_milli == 0 {
        Option::None
    } else {
        Option::Some(FacingDir { x_milli: forward.x_milli, z_milli: forward.z_milli })
    }
}

/// The jump request for a key state: the fixed jump height while the jump
/// key is held, nothing otherwise.
pub open spec fn spec_jump_action(k: KeyInput) -> Option<i32> {
    if k.jump {
        Option::Some(JUMP_HEIGHT_MILLI)
    } else {
        Option::None
    }
}

/// The whole intent of one fixed simulation step.
pub open spec fn spec_walk_intent(k: KeyInput, camera_forward: CamVector) -> WalkIntent {
    WalkIntent {
        velocity: spec_desired_velocity(k),
        facing: spec_desired_facing(camera_forward),
        float_height_milli: FLOAT_HEIGHT_MILLI,
        jump_height_milli: spec_jump_action(k),
    }
}

/// Map one fixed simulation step's key state and camera orientation to the
/// intent handed to the locomotion solver.
pub fn control_step(k: KeyInput, camera_forward: CamVector) -> (r: WalkIntent)
    ensures
        r == spec_walk_intent(k, camera_forward),
{
    WalkIntent {
        velocity: desired_velocity(k),
        facing: desired_facing(camera_forward),
        float_height_milli: FLOAT_HEIGHT_MILLI,
        jump_height_milli: if k.jump {
            Option::Some(JUMP_HEIGHT_MILLI)
        } else {
            Option::None
        },
    }
}

} // verus!
