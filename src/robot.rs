//! Robot modes, frames, hands and joint indices.

use vstd::prelude::*;
use crate::coded::IntCoded;

verus! {

/// Operating mode of the robot.
#[derive(Debug, Clone, Copy, PartialEq, Eq, Hash, Structural)]
pub enum RobotMode {
    /// Motors are compliant.
    Damping,
    /// Standing pose.
    Prepare,
    /// Active locomotion.
    Walking,
    /// User-defined behaviour.
    Custom,
}

impl IntCoded for RobotMode {
    open spec fn code_spec(self) -> int {
        match self {
            RobotMode::Damping => 0,
            RobotMode::Prepare => 1,
            RobotMode::Walking => 2,
            RobotMode::Custom => 3,
        }
    }

    open spec fn from_code_spec(code: int) -> Option<Self> {
        if code == 0 {
            Some(RobotMode::Damping)
        } else if code == 1 {
            Some(RobotMode::Prepare)
        } else if code == 2 {
            Some(RobotMode::Walking)
        } else if code == 3 {
            Some(RobotMode::Custom)
        } else {
            None
        }
    }

    proof fn lemma_round_trip(self) {
    }

    proof fn lemma_code_of_decoded(code: int) {
    }
}

impl From<RobotMode> for i32 {
    fn from(v: RobotMode) -> (r: i32) {
        match v {
            RobotMode::Damping => 0,
            RobotMode::Prepare => 1,
            RobotMode::Walking => 2,
            RobotMode::Custom => 3,
        }
    }
}

impl vstd::std_specs::convert::FromSpecImpl<RobotMode> for i32 {
    open spec fn obeys_from_spec() -> bool {
        true
    }

    open spec fn from_spec(v: RobotMode) -> i32 {
        v.code_spec() as i32
    }
}

impl TryFrom<i32> for RobotMode {
    type Error = ();

    fn try_from(v: i32) -> (r: Result<RobotMode, ()>) {
        match v {
            0 => Ok(RobotMode::Damping),
            1 => Ok(RobotMode::Prepare),
            2 => Ok(RobotMode::Walking),
            3 => Ok(RobotMode::Custom),
            _ => Err(()),
        }
    }
}

impl vstd::std_specs::convert::TryFromSpecImpl<i32> for RobotMode {
    open spec fn obeys_try_from_spec() -> bool {
        true
    }

    open spec fn try_from_spec(v: i32) -> Result<RobotMode, ()> {
        match RobotMode::from_code_spec(v as int) {
            Some(m) => Ok(m),
            None => Err(()),
        }
    }
}

/// A coordinate frame on the robot, as named in requests.
#[derive(Debug, Clone, Copy, PartialEq, Eq, Hash, Structural)]
pub enum Frame {
    /// The body centre.
    Body,
    Head,
    LeftHand,
    RightHand,
    LeftFoot,
    RightFoot,
}

/// The name of a frame in requests.
pub open spec fn frame_name(f: Frame) -> Seq<char> {
    match f {
        Frame::Body => "body"@,
        Frame::Head => "head"@,
        Frame::LeftHand => "left_hand"@,
        Frame::RightHand => "right_hand"@,
        Frame::LeftFoot => "left_foot"@,
        Frame::RightFoot => "right_foot"@,
    }
}

impl Frame {
    /// The name of the frame in requests.
    pub fn as_str(&self) -> (r: &'static str)
        ensures
            r@ == frame_name(*self),
    {
        match self {
            Frame::Body => "body",
            Frame::Head => "head",
            Frame::LeftHand => "left_hand",
            Frame::RightHand => "right_hand",
            Frame::LeftFoot => "left_foot",
            Frame::RightFoot => "right_foot",
        }
    }
}

/// Left or right hand.
#[derive(Debug, Clone, Copy, PartialEq, Eq, Hash, Structural)]
pub enum Hand {
    Left,
    Right,
}

impl IntCoded for Hand {
    open spec fn code_spec(self) -> int {
        match self {
            Hand::Left => 0,
            Hand::Right => 1,
        }
    }

    open spec fn from_code_spec(code: int) -> Option<Self> {
        if code == 0 {
            Some(Hand::Left)
        } else if code == 1 {
            Some(Hand::Right)
        } else {
            None
        }
    }

    proof fn lemma_round_trip(self) {
    }

    proof fn lemma_code_of_decoded(code: int) {
    }
}

impl From<Hand> for usize {
    fn from(v: Hand) -> (r: usize) {
        match v {
            Hand::Left => 0,
            Hand::Right => 1,
        }
    }
}

impl vstd::std_specs::convert::FromSpecImpl<Hand> for usize {
    open spec fn obeys_from_spec() -> bool {
        true
    }

    open spec fn from_spec(v: Hand) -> usize {
        v.code_spec() as usize
    }
}

impl From<Hand> for i32 {
    fn from(v: Hand) -> (r: i32) {
        match v {
            Hand::Left => 0,
            Hand::Right => 1,
        }
    }
}

impl vstd::std_specs::convert::FromSpecImpl<Hand> for i32 {
    open spec fn obeys_from_spec() -> bool {
        true
    }

    open spec fn from_spec(v: Hand) -> i32 {
        v.code_spec() as i32
    }
}

impl From<Hand> for u8 {
    fn from(v: Hand) -> (r: u8) {
        match v {
            Hand::Left => 0,
            Hand::Right => 1,
        }
    }
}

impl vstd::std_specs::convert::FromSpecImpl<Hand> for u8 {
    open spec fn obeys_from_spec() -> bool {
        true
    }

    open spec fn from_spec(v: Hand) -> u8 {
        v.code_spec() as u8
    }
}

impl TryFrom<usize> for Hand {
    type Error = ();

    fn try_from(v: usize) -> (r: Result<Hand, ()>) {
        match v {
            0 => Ok(Hand::Left),
            1 => Ok(Hand::Right),
            _ => Err(()),
        }
    }
}

impl vstd::std_specs::convert::TryFromSpecImpl<usize> for Hand {
    open spec fn obeys_try_from_spec() -> bool {
        true
    }

    open spec fn try_from_spec(v: usize) -> Result<Hand, ()> {
        match Hand::from_code_spec(v as int) {
            Some(m) => Ok(m),
            None => Err(()),
        }
    }
}

impl TryFrom<i32> for Hand {
    type Error = ();

    fn try_from(v: i32) -> (r: Result<Hand, ()>) {
        match v {
            0 => Ok(Hand::Left),
            1 => Ok(Hand::Right),
            _ => Err(()),
        }
    }
}

impl vstd::std_specs::convert::TryFromSpecImpl<i32> for Hand {
    open spec fn obeys_try_from_spec() -> bool {
        true
    }

    open spec fn try_from_spec(v: i32) -> Result<Hand, ()> {
        match Hand::from_code_spec(v as int) {
            Some(m) => Ok(m),
            None => Err(()),
        }
    }
}

/// Direction of a continuous movement.
#[derive(Debug, Clone, Copy, PartialEq, Eq, Hash, Structural)]
pub enum Direction {
    Positive,
    /// No movement.
    Stop,
    Negative,
}

impl IntCoded for Direction {
    open spec fn code_spec(self) -> int {
        match self {
            Direction::Positive => 1,
            Direction::Stop => 0,
            Direction::Negative => -1,
        }
    }

    open spec fn from_code_spec(code: int) -> Option<Self> {
        if code == 1 {
            Some(Direction::Positive)
        } else if code == 0 {
            Some(Direction::Stop)
        } else if code == -1 {
            Some(Direction::Negative)
        } else {
            None
        }
    }

    proof fn lemma_round_trip(self) {
    }

    proof fn lemma_code_of_decoded(code: int) {
    }
}

impl From<Direction> for i32 {
    fn from(v: Direction) -> (r: i32) {
        match v {
            Direction::Positive => 1,
            Direction::Stop => 0,
            Direction::Negative => -1,
        }
    }
}

impl vstd::std_specs::convert::FromSpecImpl<Direction> for i32 {
    open spec fn obeys_from_spec() -> bool {
        true
    }

    open spec fn from_spec(v: Direction) -> i32 {
        v.code_spec() as i32
    }
}

impl TryFrom<i32> for Direction {
    type Error = ();

    fn try_from(v: i32) -> (r: Result<Direction, ()>) {
        match v {
            1 => Ok(Direction::Positive),
            0 => Ok(Direction::Stop),
            -1 => Ok(Direction::Negative),
            _ => Err(()),
        }
    }
}

impl vstd::std_specs::convert::TryFromSpecImpl<i32> for Direction {
    open spec fn obeys_try_from_spec() -> bool {
        true
    }

    open spec fn try_from_spec(v: i32) -> Result<Direction, ()> {
        match Direction::from_code_spec(v as int) {
            Some(m) => Ok(m),
            None => Err(()),
        }
    }
}

/// How a gripper is driven.
#[derive(Debug, Clone, Copy, PartialEq, Eq, Hash, Structural)]
pub enum GripperMode {
    /// Towards a position.
    Position,
    /// With a grasping force.
    Force,
}

impl IntCoded for GripperMode {
    open spec fn code_spec(self) -> int {
        match self {
            GripperMode::Position => 0,
            GripperMode::Force => 1,
        }
    }

    open spec fn from_code_spec(code: int) -> Option<Self> {
        if code == 0 {
            Some(GripperMode::Position)
        } else if code == 1 {
            Some(GripperMode::Force)
        } else {
            None
        }
    }

    proof fn lemma_round_trip(self) {
    }

    proof fn lemma_code_of_decoded(code: int) {
    }
}

impl From<GripperMode> for i32 {
    fn from(v: GripperMode) -> (r: i32) {
        match v {
            GripperMode::Position => 0,
            GripperMode::Force => 1,
        }
    }
}

impl vstd::std_specs::convert::FromSpecImpl<GripperMode> for i32 {
    open spec fn obeys_from_spec() -> bool {
        true
    }

    open spec fn from_spec(v: GripperMode) -> i32 {
        v.code_spec() as i32
    }
}

impl TryFrom<i32> for GripperMode {
    type Error = ();

    fn try_from(v: i32) -> (r: Result<GripperMode, ()>) {
        match v {
            0 => Ok(GripperMode::Position),
            1 => Ok(GripperMode::Force),
            _ => Err(()),
        }
    }
}

impl vstd::std_specs::convert::TryFromSpecImpl<i32> for GripperMode {
    open spec fn obeys_try_from_spec() -> bool {
        true
    }

    open spec fn try_from_spec(v: i32) -> Result<GripperMode, ()> {
        match GripperMode::from_code_spec(v as int) {
            Some(m) => Ok(m),
            None => Err(()),
        }
    }
}

/// A predefined dance routine.
#[derive(Debug, Clone, Copy, PartialEq, Eq, Hash, Structural)]
pub enum DanceId {
    NewYear,
    Nezha,
    TowardsFuture,
}

impl IntCoded for DanceId {
    open spec fn code_spec(self) -> int {
        match self {
            DanceId::NewYear => 0,
            DanceId::Nezha => 1,
            DanceId::TowardsFuture => 2,
        }
    }

    open spec fn from_code_spec(code: int) -> Option<Self> {
        if code == 0 {
            Some(DanceId::NewYear)
        } else if code == 1 {
            Some(DanceId::Nezha)
        } else if code == 2 {
            Some(DanceId::TowardsFuture)
        } else {
            None
        }
    }

    proof fn lemma_round_trip(self) {
    }

    proof fn lemma_code_of_decoded(code: int) {
    }
}

impl From<DanceId> for i32 {
    fn from(v: DanceId) -> (r: i32) {
        match v {
            DanceId::NewYear => 0,
            DanceId::Nezha => 1,
            DanceId::TowardsFuture => 2,
        }
    }
}

impl vstd::std_specs::convert::FromSpecImpl<DanceId> for i32 {
    open spec fn obeys_from_spec() -> bool {
        true
    }

    open spec fn from_spec(v: DanceId) -> i32 {
        v.code_spec() as i32
    }
}

impl TryFrom<i32> for DanceId {
    type Error = ();

    fn try_from(v: i32) -> (r: Result<DanceId, ()>) {
        match v {
            0 => Ok(DanceId::NewYear),
            1 => Ok(DanceId::Nezha),
            2 => Ok(DanceId::TowardsFuture),
            _ => Err(()),
        }
    }
}

impl vstd::std_specs::convert::TryFromSpecImpl<i32> for DanceId {
    open spec fn obeys_try_from_spec() -> bool {
        true
    }

    open spec fn try_from_spec(v: i32) -> Result<DanceId, ()> {
        match DanceId::from_code_spec(v as int) {
            Some(m) => Ok(m),
            None => Err(()),
        }
    }
}

/// Joint index of the robot with four-joint arms.
#[derive(Debug, Clone, Copy, PartialEq, Eq, Hash, Structural)]
pub enum JointB1 {
    HeadYaw,
    HeadPitch,
    LeftShoulderPitch,
    LeftShoulderRoll,
    LeftElbowPitch,
    LeftElbowYaw,
    RightShoulderPitch,
    RightShoulderRoll,
    RightElbowPitch,
    RightElbowYaw,
    Waist,
    LeftHipPitch,
    LeftHipRoll,
    LeftHipYaw,
    LeftKneePitch,
    LeftCrankUp,
    LeftCrankDown,
    RightHipPitch,
    RightHipRoll,
    RightHipYaw,
    RightKneePitch,
    RightCrankUp,
    RightCrankDown,
}

impl IntCoded for JointB1 {
    open spec fn code_spec(self) -> int {
        match self {
            JointB1::HeadYaw => 0,
            JointB1::HeadPitch => 1,
            JointB1::LeftShoulderPitch => 2,
            JointB1::LeftShoulderRoll => 3,
            JointB1::LeftElbowPitch => 4,
            JointB1::LeftElbowYaw => 5,
            JointB1::RightShoulderPitch => 6,
            JointB1::RightShoulderRoll => 7,
            JointB1::RightElbowPitch => 8,
            JointB1::RightElbowYaw => 9,
            JointB1::Waist => 10,
            JointB1::LeftHipPitch => 11,
            JointB1::LeftHipRoll => 12,
            JointB1::LeftHipYaw => 13,
            JointB1::LeftKneePitch => 14,
            JointB1::LeftCrankUp => 15,
            JointB1::LeftCrankDown => 16,
            JointB1::RightHipPitch => 17,
            JointB1::RightHipRoll => 18,
            JointB1::RightHipYaw => 19,
            JointB1::RightKneePitch => 20,
            JointB1::RightCrankUp => 21,
            JointB1::RightCrankDown => 22,
        }
    }

    open spec fn from_code_spec(code: int) -> Option<Self> {
        if code == 0 {
            Some(JointB1::HeadYaw)
        } else if code == 1 {
            Some(JointB1::HeadPitch)
        } else if code == 2 {
            Some(JointB1::LeftShoulderPitch)
        } else if code == 3 {
            Some(JointB1::LeftShoulderRoll)
        } else if code == 4 {
            Some(JointB1::LeftElbowPitch)
        } else if code == 5 {
            Some(JointB1::LeftElbowYaw)
        } else if code == 6 {
            Some(JointB1::RightShoulderPitch)
        } else if code == 7 {
            Some(JointB1::RightShoulderRoll)
        } else if code == 8 {
            Some(JointB1::RightElbowPitch)
        } else if code == 9 {
            Some(JointB1::RightElbowYaw)
        } else if code == 10 {
            Some(JointB1::Waist)
        } else if code == 11 {
            Some(JointB1::LeftHipPitch)
        } else if code == 12 {
            Some(JointB1::LeftHipRoll)
        } else if code == 13 {
            Some(JointB1::LeftHipYaw)
        } else if code == 14 {
            Some(JointB1::LeftKneePitch)
        } else if code == 15 {
            Some(JointB1::LeftCrankUp)
        } else if code == 16 {
            Some(JointB1::LeftCrankDown)
        } else if code == 17 {
            Some(JointB1::RightHipPitch)
        } else if code == 18 {
            Some(JointB1::RightHipRoll)
        } else if code == 19 {
            Some(JointB1::RightHipYaw)
        } else if code == 20 {
            Some(JointB1::RightKneePitch)
        } else if code == 21 {
            Some(JointB1::RightCrankUp)
        } else if code == 22 {
            Some(JointB1::RightCrankDown)
        } else {
            None
        }
    }

    proof fn lemma_round_trip(self) {
    }

    proof fn lemma_code_of_decoded(code: int) {
    }
}

impl From<JointB1> for usize {
    fn from(v: JointB1) -> (r: usize) {
        match v {
            JointB1::HeadYaw => 0,
            JointB1::HeadPitch => 1,
            JointB1::LeftShoulderPitch => 2,
            JointB1::LeftShoulderRoll => 3,
            JointB1::LeftElbowPitch => 4,
            JointB1::LeftElbowYaw => 5,
            JointB1::RightShoulderPitch => 6,
            JointB1::RightShoulderRoll => 7,
            JointB1::RightElbowPitch => 8,
            JointB1::RightElbowYaw => 9,
            JointB1::Waist => 10,
            JointB1::LeftHipPitch => 11,
            JointB1::LeftHipRoll => 12,
            JointB1::LeftHipYaw => 13,
            JointB1::LeftKneePitch => 14,
            JointB1::LeftCrankUp => 15,
            JointB1::LeftCrankDown => 16,
            JointB1::RightHipPitch => 17,
            JointB1::RightHipRoll => 18,
            JointB1::RightHipYaw => 19,
            JointB1::RightKneePitch => 20,
            JointB1::RightCrankUp => 21,
            JointB1::RightCrankDown => 22,
        }
    }
}

impl vstd::std_specs::convert::FromSpecImpl<JointB1> for usize {
    open spec fn obeys_from_spec() -> bool {
        true
    }

    open spec fn from_spec(v: JointB1) -> usize {
        v.code_spec() as usize
    }
}

impl TryFrom<usize> for JointB1 {
    type Error = ();

    fn try_from(v: usize) -> (r: Result<JointB1, ()>) {
        match v {
            0 => Ok(JointB1::HeadYaw),
            1 => Ok(JointB1::HeadPitch),
            2 => Ok(JointB1::LeftShoulderPitch),
            3 => Ok(JointB1::LeftShoulderRoll),
            4 => Ok(JointB1::LeftElbowPitch),
            5 => Ok(JointB1::LeftElbowYaw),
            6 => Ok(JointB1::RightShoulderPitch),
            7 => Ok(JointB1::RightShoulderRoll),
            8 => Ok(JointB1::RightElbowPitch),
            9 => Ok(JointB1::RightElbowYaw),
            10 => Ok(JointB1::Waist),
            11 => Ok(JointB1::LeftHipPitch),
            12 => Ok(JointB1::LeftHipRoll),
            13 => Ok(JointB1::LeftHipYaw),
            14 => Ok(JointB1::LeftKneePitch),
            15 => Ok(JointB1::LeftCrankUp),
            16 => Ok(JointB1::LeftCrankDown),
            17 => Ok(JointB1::RightHipPitch),
            18 => Ok(JointB1::RightHipRoll),
            19 => Ok(JointB1::RightHipYaw),
            20 => Ok(JointB1::RightKneePitch),
            21 => Ok(JointB1::RightCrankUp),
            22 => Ok(JointB1::RightCrankDown),
            _ => Err(()),
        }
    }
}

impl vstd::std_specs::convert::TryFromSpecImpl<usize> for JointB1 {
    open spec fn obeys_try_from_spec() -> bool {
        true
    }

    open spec fn try_from_spec(v: usize) -> Result<JointB1, ()> {
        match JointB1::from_code_spec(v as int) {
            Some(m) => Ok(m),
            None => Err(()),
        }
    }
}

impl JointB1 {
    /// The number of joints.
    pub const COUNT: usize = 23;
}

/// Joint index of the robot with seven-joint arms.
#[derive(Debug, Clone, Copy, PartialEq, Eq, Hash, Structural)]
pub enum JointB1_7DOF {
    HeadYaw,
    HeadPitch,
    LeftShoulderPitch,
    LeftShoulderRoll,
    LeftElbowPitch,
    LeftElbowYaw,
    LeftWristPitch,
    LeftWristYaw,
    LeftHandRoll,
    RightShoulderPitch,
    RightShoulderRoll,
    RightElbowPitch,
    RightElbowYaw,
    RightWristPitch,
    RightWristYaw,
    RightHandRoll,
    Waist,
    LeftHipPitch,
    LeftHipRoll,
    LeftHipYaw,
    LeftKneePitch,
    LeftCrankUp,
    LeftCrankDown,
    RightHipPitch,
    RightHipRoll,
    RightHipYaw,
    RightKneePitch,
    RightCrankUp,
    RightCrankDown,
}

impl IntCoded for JointB1_7DOF {
    open spec fn code_spec(self) -> int {
        match self {
            JointB1_7DOF::HeadYaw => 0,
            JointB1_7DOF::HeadPitch => 1,
            JointB1_7DOF::LeftShoulderPitch => 2,
            JointB1_7DOF::LeftShoulderRoll => 3,
            JointB1_7DOF::LeftElbowPitch => 4,
            JointB1_7DOF::LeftElbowYaw => 5,
            JointB1_7DOF::LeftWristPitch => 6,
            JointB1_7DOF::LeftWristYaw => 7,
            JointB1_7DOF::LeftHandRoll => 8,
            JointB1_7DOF::RightShoulderPitch => 9,
            JointB1_7DOF::RightShoulderRoll => 10,
            JointB1_7DOF::RightElbowPitch => 11,
            JointB1_7DOF::RightElbowYaw => 12,
            JointB1_7DOF::RightWristPitch => 13,
            JointB1_7DOF::RightWristYaw => 14,
            JointB1_7DOF::RightHandRoll => 15,
            JointB1_7DOF::Waist => 16,
            JointB1_7DOF::LeftHipPitch => 17,
            JointB1_7DOF::LeftHipRoll => 18,
            JointB1_7DOF::LeftHipYaw => 19,
            JointB1_7DOF::LeftKneePitch => 20,
            JointB1_7DOF::LeftCrankUp => 21,
            JointB1_7DOF::LeftCrankDown => 22,
            JointB1_7DOF::RightHipPitch => 23,
            JointB1_7DOF::RightHipRoll => 24,
            JointB1_7DOF::RightHipYaw => 25,
            JointB1_7DOF::RightKneePitch => 26,
            JointB1_7DOF::RightCrankUp => 27,
            JointB1_7DOF::RightCrankDown => 28,
        }
    }

    open spec fn from_code_spec(code: int) -> Option<Self> {
        if code == 0 {
            Some(JointB1_7DOF::HeadYaw)
        } else if code == 1 {
            Some(JointB1_7DOF::HeadPitch)
        } else if code == 2 {
            Some(JointB1_7DOF::LeftShoulderPitch)
        } else if code == 3 {
            Some(JointB1_7DOF::LeftShoulderRoll)
        } else if code == 4 {
            Some(JointB1_7DOF::LeftElbowPitch)
        } else if code == 5 {
            Some(JointB1_7DOF::LeftElbowYaw)
        } else if code == 6 {
            Some(JointB1_7DOF::LeftWristPitch)
        } else if code == 7 {
            Some(JointB1_7DOF::LeftWristYaw)
        } else if code == 8 {
            Some(JointB1_7DOF::LeftHandRoll)
        } else if code == 9 {
            Some(JointB1_7DOF::RightShoulderPitch)
        } else if code == 10 {
            Some(JointB1_7DOF::RightShoulderRoll)
        } else if code == 11 {
            Some(JointB1_7DOF::RightElbowPitch)
        } else if code == 12 {
            Some(JointB1_7DOF::RightElbowYaw)
        } else if code == 13 {
            Some(JointB1_7DOF::RightWristPitch)
        } else if code == 14 {
            Some(JointB1_7DOF::RightWristYaw)
        } else if code == 15 {
            Some(JointB1_7DOF::RightHandRoll)
        } else if code == 16 {
            Some(JointB1_7DOF::Waist)
        } else if code == 17 {
            Some(JointB1_7DOF::LeftHipPitch)
        } else if code == 18 {
            Some(JointB1_7DOF::LeftHipRoll)
        } else if code == 19 {
            Some(JointB1_7DOF::LeftHipYaw)
        } else if code == 20 {
            Some(JointB1_7DOF::LeftKneePitch)
        } else if code == 21 {
            Some(JointB1_7DOF::LeftCrankUp)
        } else if code == 22 {
            Some(JointB1_7DOF::LeftCrankDown)
        } else if code == 23 {
            Some(JointB1_7DOF::RightHipPitch)
        } else if code == 24 {
            Some(JointB1_7DOF::RightHipRoll)
        } else if code == 25 {
            Some(JointB1_7DOF::RightHipYaw)
        } else if code == 26 {
            Some(JointB1_7DOF::RightKneePitch)
        } else if code == 27 {
            Some(JointB1_7DOF::RightCrankUp)
        } else if code == 28 {
            Some(JointB1_7DOF::RightCrankDown)
        } else {
            None
        }
    }

    proof fn lemma_round_trip(self) {
    }

    proof fn lemma_code_of_decoded(code: int) {
    }
}

impl From<JointB1_7DOF> for usize {
    fn from(v: JointB1_7DOF) -> (r: usize) {
        match v {
            JointB1_7DOF::HeadYaw => 0,
            JointB1_7DOF::HeadPitch => 1,
            JointB1_7DOF::LeftShoulderPitch => 2,
            JointB1_7DOF::LeftShoulderRoll => 3,
            JointB1_7DOF::LeftElbowPitch => 4,
            JointB1_7DOF::LeftElbowYaw => 5,
            JointB1_7DOF::LeftWristPitch => 6,
            JointB1_7DOF::LeftWristYaw => 7,
            JointB1_7DOF::LeftHandRoll => 8,
            JointB1_7DOF::RightShoulderPitch => 9,
            JointB1_7DOF::RightShoulderRoll => 10,
            JointB1_7DOF::RightElbowPitch => 11,
            JointB1_7DOF::RightElbowYaw => 12,
            JointB1_7DOF::RightWristPitch => 13,
            JointB1_7DOF::RightWristYaw => 14,
            JointB1_7DOF::RightHandRoll => 15,
            JointB1_7DOF::Waist => 16,
            JointB1_7DOF::LeftHipPitch => 17,
            JointB1_7DOF::LeftHipRoll => 18,
            JointB1_7DOF::LeftHipYaw => 19,
            JointB1_7DOF::LeftKneePitch => 20,
            JointB1_7DOF::LeftCrankUp => 21,
            JointB1_7DOF::LeftCrankDown => 22,
            JointB1_7DOF::RightHipPitch => 23,
            JointB1_7DOF::RightHipRoll => 24,
            JointB1_7DOF::RightHipYaw => 25,
            JointB1_7DOF::RightKneePitch => 26,
            JointB1_7DOF::RightCrankUp => 27,
            JointB1_7DOF::RightCrankDown => 28,
        }
    }
}

impl vstd::std_specs::convert::FromSpecImpl<JointB1_7DOF> for usize {
    open spec fn obeys_from_spec() -> bool {
        true
    }

    open spec fn from_spec(v: JointB1_7DOF) -> usize {
        v.code_spec() as usize
    }
}

impl TryFrom<usize> for JointB1_7DOF {
    type Error = ();

    fn try_from(v: usize) -> (r: Result<JointB1_7DOF, ()>) {
        match v {
            0 => Ok(JointB1_7DOF::HeadYaw),
            1 => Ok(JointB1_7DOF::HeadPitch),
            2 => Ok(JointB1_7DOF::LeftShoulderPitch),
            3 => Ok(JointB1_7DOF::LeftShoulderRoll),
            4 => Ok(JointB1_7DOF::LeftElbowPitch),
            5 => Ok(JointB1_7DOF::LeftElbowYaw),
            6 => Ok(JointB1_7DOF::LeftWristPitch),
            7 => Ok(JointB1_7DOF::LeftWristYaw),
            8 => Ok(JointB1_7DOF::LeftHandRoll),
            9 => Ok(JointB1_7DOF::RightShoulderPitch),
            10 => Ok(JointB1_7DOF::RightShoulderRoll),
            11 => Ok(JointB1_7DOF::RightElbowPitch),
            12 => Ok(JointB1_7DOF::RightElbowYaw),
            13 => Ok(JointB1_7DOF::RightWristPitch),
            14 => Ok(JointB1_7DOF::RightWristYaw),
            15 => Ok(JointB1_7DOF::RightHandRoll),
            16 => Ok(JointB1_7DOF::Waist),
            17 => Ok(JointB1_7DOF::LeftHipPitch),
            18 => Ok(JointB1_7DOF::LeftHipRoll),
            19 => Ok(JointB1_7DOF::LeftHipYaw),
            20 => Ok(JointB1_7DOF::LeftKneePitch),
            21 => Ok(JointB1_7DOF::LeftCrankUp),
            22 => Ok(JointB1_7DOF::LeftCrankDown),
            23 => Ok(JointB1_7DOF::RightHipPitch),
            24 => Ok(JointB1_7DOF::RightHipRoll),
            25 => Ok(JointB1_7DOF::RightHipYaw),
            26 => Ok(JointB1_7DOF::RightKneePitch),
            27 => Ok(JointB1_7DOF::RightCrankUp),
            28 => Ok(JointB1_7DOF::RightCrankDown),
            _ => Err(()),
        }
    }
}

impl vstd::std_specs::convert::TryFromSpecImpl<usize> for JointB1_7DOF {
    open spec fn obeys_try_from_spec() -> bool {
        true
    }

    open spec fn try_from_spec(v: usize) -> Result<JointB1_7DOF, ()> {
        match JointB1_7DOF::from_code_spec(v as int) {
            Some(m) => Ok(m),
            None => Err(()),
        }
    }
}

impl JointB1_7DOF {
    /// The number of joints.
    pub const COUNT: usize = 29;
}

/// Finger index of a dexterous hand.
#[derive(Debug, Clone, Copy, PartialEq, Eq, Hash, Structural)]
pub enum Finger {
    ThumbRotation,
    Thumb,
    Index,
    Middle,
    Ring,
    Pinky,
}

impl IntCoded for Finger {
    open spec fn code_spec(self) -> int {
        match self {
            Finger::ThumbRotation => 0,
            Finger::Thumb => 1,
            Finger::Index => 2,
            Finger::Middle => 3,
            Finger::Ring => 4,
            Finger::Pinky => 5,
        }
    }

    open spec fn from_code_spec(code: int) -> Option<Self> {
        if code == 0 {
            Some(Finger::ThumbRotation)
        } else if code == 1 {
            Some(Finger::Thumb)
        } else if code == 2 {
            Some(Finger::Index)
        } else if code == 3 {
            Some(Finger::Middle)
        } else if code == 4 {
            Some(Finger::Ring)
        } else if code == 5 {
            Some(Finger::Pinky)
        } else {
            None
        }
    }

    proof fn lemma_round_trip(self) {
    }

    proof fn lemma_code_of_decoded(code: int) {
    }
}

impl From<Finger> for usize {
    fn from(v: Finger) -> (r: usize) {
        match v {
            Finger::ThumbRotation => 0,
            Finger::Thumb => 1,
            Finger::Index => 2,
            Finger::Middle => 3,
            Finger::Ring => 4,
            Finger::Pinky => 5,
        }
    }
}

impl vstd::std_specs::convert::FromSpecImpl<Finger> for usize {
    open spec fn obeys_from_spec() -> bool {
        true
    }

    open spec fn from_spec(v: Finger) -> usize {
        v.code_spec() as usize
    }
}

impl TryFrom<usize> for Finger {
    type Error = ();

    fn try_from(v: usize) -> (r: Result<Finger, ()>) {
        match v {
            0 => Ok(Finger::ThumbRotation),
            1 => Ok(Finger::Thumb),
            2 => Ok(Finger::Index),
            3 => Ok(Finger::Middle),
            4 => Ok(Finger::Ring),
            5 => Ok(Finger::Pinky),
            _ => Err(()),
        }
    }
}

impl vstd::std_specs::convert::TryFromSpecImpl<usize> for Finger {
    open spec fn obeys_try_from_spec() -> bool {
        true
    }

    open spec fn try_from_spec(v: usize) -> Result<Finger, ()> {
        match Finger::from_code_spec(v as int) {
            Some(m) => Ok(m),
            None => Err(()),
        }
    }
}

impl Finger {
    /// The number of fingers.
    pub const COUNT: usize = 6;
}

} // verus!
