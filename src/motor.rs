//! Motor control modes.

use vstd::prelude::*;
use crate::coded::IntCoded;

verus! {

/// Control mode of a motor.
#[derive(Debug, Clone, Copy, PartialEq, Eq, Hash, Structural)]
pub enum MotorMode {
    /// Position and velocity control.
    Servo,
    /// Low stiffness.
    Damping,
}

impl IntCoded for MotorMode {
    open spec fn code_spec(self) -> int {
        match self {
            MotorMode::Servo => 0,
            MotorMode::Damping => 1,
        }
    }

    open spec fn from_code_spec(code: int) -> Option<Self> {
        if code == 0 {
            Some(MotorMode::Servo)
        } else if code == 1 {
            Some(MotorMode::Damping)
        } else {
            None
        }
    }

    proof fn lemma_round_trip(self) {
    }

    proof fn lemma_code_of_decoded(code: int) {
    }
}

impl From<MotorMode> for u8 {
    fn from(v: MotorMode) -> (r: u8) {
        match v {
            MotorMode::Servo => 0,
            MotorMode::Damping => 1,
        }
    }
}

impl vstd::std_specs::convert::FromSpecImpl<MotorMode> for u8 {
    open spec fn obeys_from_spec() -> bool {
        true
    }

    open spec fn from_spec(v: MotorMode) -> u8 {
        v.code_spec() as u8
    }
}

impl TryFrom<u8> for MotorMode {
    type Error = ();

    fn try_from(v: u8) -> (r: Result<MotorMode, ()>) {
        match v {
            0 => Ok(MotorMode::Servo),
            1 => Ok(MotorMode::Damping),
            _ => Err(()),
        }
    }
}

impl vstd::std_specs::convert::TryFromSpecImpl<u8> for MotorMode {
    open spec fn obeys_try_from_spec() -> bool {
        true
    }

    open spec fn try_from_spec(v: u8) -> Result<MotorMode, ()> {
        match MotorMode::from_code_spec(v as int) {
            Some(m) => Ok(m),
            None => Err(()),
        }
    }
}

} // verus!
