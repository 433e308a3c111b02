//! Gripper commands and the control message that carries them.

use vstd::prelude::*;
use crate::b1::Frame;
use crate::coded::IntCoded;
use crate::robot::{GripperMode, Hand};

verus! {

/// Default speed of a gripper command.
pub const GRIPPER_DEFAULT_SPEED: u16 = 500;

/// Weakest grasping force.
pub const GRIPPER_MIN_FORCE: u16 = 50;

/// Largest motion parameter: fully closed, or the strongest force.
pub const GRIPPER_MAX_PARAM: u16 = 1000;

/// The gripper control message published on the gripper topic.
#[derive(Debug, Clone, Copy, PartialEq, Eq, Structural)]
pub struct GripperControl {
    pub hand_index: u8,
    pub position: i32,
    pub force: i32,
    pub speed: i32,
}

/// A gripper command.
#[derive(Debug, Clone, Copy, PartialEq, Eq, Structural)]
pub struct GripperCommand {
    /// The hand whose gripper moves.
    pub hand: Hand,
    /// Position or force control.
    pub mode: GripperMode,
    /// Position mode: 0 (open) to 1000 (closed). Force mode: 50 to 1000.
    pub motion_param: u16,
    /// Speed, 1 to 1000.
    pub speed: u16,
}

/// `v` held within `lo..=hi`.
pub open spec fn clamp_spec(v: u16, lo: u16, hi: u16) -> u16 {
    if v < lo {
        lo
    } else if v > hi {
        hi
    } else {
        v
    }
}

impl GripperCommand {
    /// Opens the gripper fully.
    pub fn open(hand: Hand) -> (r: GripperCommand)
        ensures
            r == (GripperCommand {
                hand,
                mode: GripperMode::Position,
                motion_param: 0,
                speed: GRIPPER_DEFAULT_SPEED,
            }),
    {
        GripperCommand {
            hand,
            mode: GripperMode::Position,
            motion_param: 0,
            speed: GRIPPER_DEFAULT_SPEED,
        }
    }

    /// Closes the gripper fully.
    pub fn close(hand: Hand) -> (r: GripperCommand)
        ensures
            r == (GripperCommand {
                hand,
                mode: GripperMode::Position,
                motion_param: GRIPPER_MAX_PARAM,
                speed: GRIPPER_DEFAULT_SPEED,
            }),
    {
        GripperCommand {
            hand,
            mode: GripperMode::Position,
            motion_param: GRIPPER_MAX_PARAM,
            speed: GRIPPER_DEFAULT_SPEED,
        }
    }

    /// Grasps with `force`, held within 50 to 1000.
    pub fn grasp(hand: Hand, force: u16) -> (r: GripperCommand)
        ensures
            r == (GripperCommand {
                hand,
                mode: GripperMode::Force,
                motion_param: clamp_spec(force, GRIPPER_MIN_FORCE, GRIPPER_MAX_PARAM),
                speed: GRIPPER_DEFAULT_SPEED,
            }),
    {
        let param = if force < GRIPPER_MIN_FORCE {
            GRIPPER_MIN_FORCE
        } else if force > GRIPPER_MAX_PARAM {
            GRIPPER_MAX_PARAM
        } else {
            force
        };
        GripperCommand { hand, mode: GripperMode::Force, motion_param: param, speed: GRIPPER_DEFAULT_SPEED }
    }

    /// The control message for this command: the motion parameter goes to
    /// the position or to the force, as the mode says, and the other is 0.
    pub fn to_dds_control(&self) -> (r: GripperControl)
        ensures
            r.hand_index as int == self.hand.code_spec(),
            r.position == (if self.mode == GripperMode::Position {
                self.motion_param as i32
            } else {
                0
            }),
            r.force == (if self.mode == GripperMode::Force {
                self.motion_param as i32
            } else {
                0
            }),
            r.speed == self.speed as i32,
    {
        let (position, force) = match self.mode {
            GripperMode::Position => (self.motion_param as i32, 0i32),
            GripperMode::Force => (0i32, self.motion_param as i32),
        };
        GripperControl { hand_index: u8::from(self.hand), position, force, speed: self.speed as i32 }
    }
}

/// Largest force of a finger of a dexterous hand.
pub const FINGER_MAX_FORCE: u16 = 1000;

/// Slowest speed of a finger of a dexterous hand.
pub const FINGER_MIN_SPEED: u16 = 1;

/// Fastest speed of a finger of a dexterous hand.
pub const FINGER_MAX_SPEED: u16 = 1000;

/// A finger force held within 0 to 1000.
pub fn finger_force(force: u16) -> (r: u16)
    ensures
        r == clamp_spec(force, 0, FINGER_MAX_FORCE),
{
    if force > FINGER_MAX_FORCE {
        FINGER_MAX_FORCE
    } else {
        force
    }
}

/// A finger speed held within 1 to 1000.
pub fn finger_speed(speed: u16) -> (r: u16)
    ensures
        r == clamp_spec(speed, FINGER_MIN_SPEED, FINGER_MAX_SPEED),
{
    if speed < FINGER_MIN_SPEED {
        FINGER_MIN_SPEED
    } else if speed > FINGER_MAX_SPEED {
        FINGER_MAX_SPEED
    } else {
        speed
    }
}

/// A query for the transform between two frames.
#[derive(Debug, Clone, Copy, PartialEq, Eq, Structural)]
pub struct FrameTransformQuery {
    pub source: Frame,
    pub destination: Frame,
}

} // verus!
