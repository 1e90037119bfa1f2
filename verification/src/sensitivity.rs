//! Mouse sensitivity: microradians of camera turn per mouse count,
//! per axis, fixed at startup.

use vstd::prelude::*;

verus! {

/// Microradians of yaw (`x`) and pitch (`y`) per mouse count.
#[derive(Clone, Copy, Debug, PartialEq, Eq, Structural)]
pub struct CameraSensitivity {
    pub x: u32,
    pub y: u32,
}

impl Default for CameraSensitivity {
    /// 0.003 rad per count of yaw and 0.002 rad per count of pitch.
    fn default() -> (s: Self)
        ensures
            s.x == 3000,
            s.y == 2000,
    {
        CameraSensitivity { x: 3000, y: 2000 }
    }
}

} // verus!
