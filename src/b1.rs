//! Locomotion service identifiers, body and action states, and the
//! parameter and result types of the locomotion calls.

use vstd::prelude::*;
use crate::coded::{IntCoded, INVALID_CODE};
use crate::robot::{Hand, RobotMode};

verus! {

/// Operations of the locomotion service.
#[derive(Debug, Clone, Copy, PartialEq, Eq, Hash, Structural)]
pub enum LocoApiId {
    ChangeMode,
    Move,
    RotateHead,
    WaveHand,
    RotateHeadWithDirection,
    LieDown,
    GetUp,
    MoveHandEndEffector,
    ControlGripper,
    GetFrameTransform,
    SwitchHandEndEffectorControlMode,
    ControlDexterousHand,
    Handshake,
    Dance,
    GetMode,
    GetStatus,
    PushUp,
    PlaySound,
    StopSound,
    GetRobotInfo,
    StopHandEndEffector,
    Shoot,
    GetUpWithMode,
    ZeroTorqueDrag,
    RecordTrajectory,
    ReplayTrajectory,
    WholeBodyDance,
    UpperBodyCustomControl,
    ResetOdometry,
    LoadCustomTrainedTraj,
    ActivateCustomTrainedTraj,
    UnloadCustomTrainedTraj,
    EnterWbcGait,
    ExitWbcGait,
}

impl IntCoded for LocoApiId {
    open spec fn code_spec(self) -> int {
        match self {
            LocoApiId::ChangeMode => 2000,
            LocoApiId::Move => 2001,
            LocoApiId::RotateHead => 2004,
            LocoApiId::WaveHand => 2005,
            LocoApiId::RotateHeadWithDirection => 2006,
            LocoApiId::LieDown => 2007,
            LocoApiId::GetUp => 2008,
            LocoApiId::MoveHandEndEffector => 2009,
            LocoApiId::ControlGripper => 2010,
            LocoApiId::GetFrameTransform => 2011,
            LocoApiId::SwitchHandEndEffectorControlMode => 2012,
            LocoApiId::ControlDexterousHand => 2013,
            LocoApiId::Handshake => 2015,
            LocoApiId::Dance => 2016,
            LocoApiId::GetMode => 2017,
            LocoApiId::GetStatus => 2018,
            LocoApiId::PushUp => 2019,
            LocoApiId::PlaySound => 2020,
            LocoApiId::StopSound => 2021,
            LocoApiId::GetRobotInfo => 2022,
            LocoApiId::StopHandEndEffector => 2023,
            LocoApiId::Shoot => 2024,
            LocoApiId::GetUpWithMode => 2025,
            LocoApiId::ZeroTorqueDrag => 2026,
            LocoApiId::RecordTrajectory => 2027,
            LocoApiId::ReplayTrajectory => 2028,
            LocoApiId::WholeBodyDance => 2029,
            LocoApiId::UpperBodyCustomControl => 2030,
            LocoApiId::ResetOdometry => 2031,
            LocoApiId::LoadCustomTrainedTraj => 2032,
            LocoApiId::ActivateCustomTrainedTraj => 2033,
            LocoApiId::UnloadCustomTrainedTraj => 2034,
            LocoApiId::EnterWbcGait => 2035,
            LocoApiId::ExitWbcGait => 2036,
        }
    }

    open spec fn from_code_spec(code: int) -> Option<Self> {
        if code == 2000 {
            Some(LocoApiId::ChangeMode)
        } else if code == 2001 {
            Some(LocoApiId::Move)
        } else if code == 2004 {
            Some(LocoApiId::RotateHead)
        } else if code == 2005 {
            Some(LocoApiId::WaveHand)
        } else if code == 2006 {
            Some(LocoApiId::RotateHeadWithDirection)
        } else if code == 2007 {
            Some(LocoApiId::LieDown)
        } else if code == 2008 {
            Some(LocoApiId::GetUp)
        } else if code == 2009 {
            Some(LocoApiId::MoveHandEndEffector)
        } else if code == 2010 {
            Some(LocoApiId::ControlGripper)
        } else if code == 2011 {
            Some(LocoApiId::GetFrameTransform)
        } else if code == 2012 {
            Some(LocoApiId::SwitchHandEndEffectorControlMode)
        } else if code == 2013 {
            Some(LocoApiId::ControlDexterousHand)
        } else if code == 2015 {
            Some(LocoApiId::Handshake)
        } else if code == 2016 {
            Some(LocoApiId::Dance)
        } else if code == 2017 {
            Some(LocoApiId::GetMode)
        } else if code == 2018 {
            Some(LocoApiId::GetStatus)
        } else if code == 2019 {
            Some(LocoApiId::PushUp)
        } else if code == 2020 {
            Some(LocoApiId::PlaySound)
        } else if code == 2021 {
            Some(LocoApiId::StopSound)
        } else if code == 2022 {
            Some(LocoApiId::GetRobotInfo)
        } else if code == 2023 {
            Some(LocoApiId::StopHandEndEffector)
        } else if code == 2024 {
            Some(LocoApiId::Shoot)
        } else if code == 2025 {
            Some(LocoApiId::GetUpWithMode)
        } else if code == 2026 {
            Some(LocoApiId::ZeroTorqueDrag)
        } else if code == 2027 {
            Some(LocoApiId::RecordTrajectory)
        } else if code == 2028 {
            Some(LocoApiId::ReplayTrajectory)
        } else if code == 2029 {
            Some(LocoApiId::WholeBodyDance)
        } else if code == 2030 {
            Some(LocoApiId::UpperBodyCustomControl)
        } else if code == 2031 {
            Some(LocoApiId::ResetOdometry)
        } else if code == 2032 {
            Some(LocoApiId::LoadCustomTrainedTraj)
        } else if code == 2033 {
            Some(LocoApiId::ActivateCustomTrainedTraj)
        } else if code == 2034 {
            Some(LocoApiId::UnloadCustomTrainedTraj)
        } else if code == 2035 {
            Some(LocoApiId::EnterWbcGait)
        } else if code == 2036 {
            Some(LocoApiId::ExitWbcGait)
        } else {
            None
        }
    }

    proof fn lemma_round_trip(self) {
    }

    proof fn lemma_code_of_decoded(code: int) {
    }
}

impl From<LocoApiId> for i32 {
    fn from(v: LocoApiId) -> (r: i32) {
        match v {
            LocoApiId::ChangeMode => 2000,
            LocoApiId::Move => 2001,
            LocoApiId::RotateHead => 2004,
            LocoApiId::WaveHand => 2005,
            LocoApiId::RotateHeadWithDirection => 2006,
            LocoApiId::LieDown => 2007,
            LocoApiId::GetUp => 2008,
            LocoApiId::MoveHandEndEffector => 2009,
            LocoApiId::ControlGripper => 2010,
            LocoApiId::GetFrameTransform => 2011,
            LocoApiId::SwitchHandEndEffectorControlMode => 2012,
            LocoApiId::ControlDexterousHand => 2013,
            LocoApiId::Handshake => 2015,
            LocoApiId::Dance => 2016,
            LocoApiId::GetMode => 2017,
            LocoApiId::GetStatus => 2018,
            LocoApiId::PushUp => 2019,
            LocoApiId::PlaySound => 2020,
            LocoApiId::StopSound => 2021,
            LocoApiId::GetRobotInfo => 2022,
            LocoApiId::StopHandEndEffector => 2023,
            LocoApiId::Shoot => 2024,
            LocoApiId::GetUpWithMode => 2025,
            LocoApiId::ZeroTorqueDrag => 2026,
            LocoApiId::RecordTrajectory => 2027,
            LocoApiId::ReplayTrajectory => 2028,
            LocoApiId::WholeBodyDance => 2029,
            LocoApiId::UpperBodyCustomControl => 2030,
            LocoApiId::ResetOdometry => 2031,
            LocoApiId::LoadCustomTrainedTraj => 2032,
            LocoApiId::ActivateCustomTrainedTraj => 2033,
            LocoApiId::UnloadCustomTrainedTraj => 2034,
            LocoApiId::EnterWbcGait => 2035,
            LocoApiId::ExitWbcGait => 2036,
        }
    }
}

impl vstd::std_specs::convert::FromSpecImpl<LocoApiId> for i32 {
    open spec fn obeys_from_spec() -> bool {
        true
    }

    open spec fn from_spec(v: LocoApiId) -> i32 {
        v.code_spec() as i32
    }
}

impl TryFrom<i32> for LocoApiId {
    type Error = &'static str;

    fn try_from(v: i32) -> (r: Result<LocoApiId, &'static str>) {
        match v {
            2000 => Ok(LocoApiId::ChangeMode),
            2001 => Ok(LocoApiId::Move),
            2004 => Ok(LocoApiId::RotateHead),
            2005 => Ok(LocoApiId::WaveHand),
            2006 => Ok(LocoApiId::RotateHeadWithDirection),
            2007 => Ok(LocoApiId::LieDown),
            2008 => Ok(LocoApiId::GetUp),
            2009 => Ok(LocoApiId::MoveHandEndEffector),
            2010 => Ok(LocoApiId::ControlGripper),
            2011 => Ok(LocoApiId::GetFrameTransform),
            2012 => Ok(LocoApiId::SwitchHandEndEffectorControlMode),
            2013 => Ok(LocoApiId::ControlDexterousHand),
            2015 => Ok(LocoApiId::Handshake),
            2016 => Ok(LocoApiId::Dance),
            2017 => Ok(LocoApiId::GetMode),
            2018 => Ok(LocoApiId::GetStatus),
            2019 => Ok(LocoApiId::PushUp),
            2020 => Ok(LocoApiId::PlaySound),
            2021 => Ok(LocoApiId::StopSound),
            2022 => Ok(LocoApiId::GetRobotInfo),
            2023 => Ok(LocoApiId::StopHandEndEffector),
            2024 => Ok(LocoApiId::Shoot),
            2025 => Ok(LocoApiId::GetUpWithMode),
            2026 => Ok(LocoApiId::ZeroTorqueDrag),
            2027 => Ok(LocoApiId::RecordTrajectory),
            2028 => Ok(LocoApiId::ReplayTrajectory),
            2029 => Ok(LocoApiId::WholeBodyDance),
            2030 => Ok(LocoApiId::UpperBodyCustomControl),
            2031 => Ok(LocoApiId::ResetOdometry),
            2032 => Ok(LocoApiId::LoadCustomTrainedTraj),
            2033 => Ok(LocoApiId::ActivateCustomTrainedTraj),
            2034 => Ok(LocoApiId::UnloadCustomTrainedTraj),
            2035 => Ok(LocoApiId::EnterWbcGait),
            2036 => Ok(LocoApiId::ExitWbcGait),
            _ => Err(INVALID_CODE),
        }
    }
}

impl vstd::std_specs::convert::TryFromSpecImpl<i32> for LocoApiId {
    open spec fn obeys_try_from_spec() -> bool {
        true
    }

    open spec fn try_from_spec(v: i32) -> Result<LocoApiId, &'static str> {
        match LocoApiId::from_code_spec(v as int) {
            Some(m) => Ok(m),
            None => Err(INVALID_CODE),
        }
    }
}

/// The controller that drives the body.
#[derive(Debug, Clone, Copy, PartialEq, Eq, Hash, Structural)]
pub enum BodyControl {
    Unknown,
    Damping,
    Prepare,
    HumanlikeGait,
    ProneBody,
    SoccerGait,
    Custom,
    GetUp,
    WholeBodyDance,
    Shoot,
    InsideFoot,
    Goalie,
    WbcGait,
}

impl IntCoded for BodyControl {
    open spec fn code_spec(self) -> int {
        match self {
            BodyControl::Unknown => 0,
            BodyControl::Damping => 1,
            BodyControl::Prepare => 2,
            BodyControl::HumanlikeGait => 3,
            BodyControl::ProneBody => 4,
            BodyControl::SoccerGait => 5,
            BodyControl::Custom => 6,
            BodyControl::GetUp => 7,
            BodyControl::WholeBodyDance => 8,
            BodyControl::Shoot => 9,
            BodyControl::InsideFoot => 10,
            BodyControl::Goalie => 11,
            BodyControl::WbcGait => 12,
        }
    }

    open spec fn from_code_spec(code: int) -> Option<Self> {
        if code == 0 {
            Some(BodyControl::Unknown)
        } else if code == 1 {
            Some(BodyControl::Damping)
        } else if code == 2 {
            Some(BodyControl::Prepare)
        } else if code == 3 {
            Some(BodyControl::HumanlikeGait)
        } else if code == 4 {
            Some(BodyControl::ProneBody)
        } else if code == 5 {
            Some(BodyControl::SoccerGait)
        } else if code == 6 {
            Some(BodyControl::Custom)
        } else if code == 7 {
            Some(BodyControl::GetUp)
        } else if code == 8 {
            Some(BodyControl::WholeBodyDance)
        } else if code == 9 {
            Some(BodyControl::Shoot)
        } else if code == 10 {
            Some(BodyControl::InsideFoot)
        } else if code == 11 {
            Some(BodyControl::Goalie)
        } else if code == 12 {
            Some(BodyControl::WbcGait)
        } else {
            None
        }
    }

    proof fn lemma_round_trip(self) {
    }

    proof fn lemma_code_of_decoded(code: int) {
    }
}

impl From<BodyControl> for i32 {
    fn from(v: BodyControl) -> (r: i32) {
        match v {
            BodyControl::Unknown => 0,
            BodyControl::Damping => 1,
            BodyControl::Prepare => 2,
            BodyControl::HumanlikeGait => 3,
            BodyControl::ProneBody => 4,
            BodyControl::SoccerGait => 5,
            BodyControl::Custom => 6,
            BodyControl::GetUp => 7,
            BodyControl::WholeBodyDance => 8,
            BodyControl::Shoot => 9,
            BodyControl::InsideFoot => 10,
            BodyControl::Goalie => 11,
            BodyControl::WbcGait => 12,
        }
    }
}

impl vstd::std_specs::convert::FromSpecImpl<BodyControl> for i32 {
    open spec fn obeys_from_spec() -> bool {
        true
    }

    open spec fn from_spec(v: BodyControl) -> i32 {
        v.code_spec() as i32
    }
}

impl TryFrom<i32> for BodyControl {
    type Error = &'static str;

    fn try_from(v: i32) -> (r: Result<BodyControl, &'static str>) {
        match v {
            0 => Ok(BodyControl::Unknown),
            1 => Ok(BodyControl::Damping),
            2 => Ok(BodyControl::Prepare),
            3 => Ok(BodyControl::HumanlikeGait),
            4 => Ok(BodyControl::ProneBody),
            5 => Ok(BodyControl::SoccerGait),
            6 => Ok(BodyControl::Custom),
            7 => Ok(BodyControl::GetUp),
            8 => Ok(BodyControl::WholeBodyDance),
            9 => Ok(BodyControl::Shoot),
            10 => Ok(BodyControl::InsideFoot),
            11 => Ok(BodyControl::Goalie),
            12 => Ok(BodyControl::WbcGait),
            _ => Err(INVALID_CODE),
        }
    }
}

impl vstd::std_specs::convert::TryFromSpecImpl<i32> for BodyControl {
    open spec fn obeys_try_from_spec() -> bool {
        true
    }

    open spec fn try_from_spec(v: i32) -> Result<BodyControl, &'static str> {
        match BodyControl::from_code_spec(v as int) {
            Some(m) => Ok(m),
            None => Err(INVALID_CODE),
        }
    }
}

/// An action the robot is performing.
#[derive(Debug, Clone, Copy, PartialEq, Eq, Hash, Structural)]
pub enum Action {
    Unknown,
    HandShake,
    HandWave,
    HandControl,
    DanceNewYear,
    DanceNezha,
    DanceTowardsFuture,
    GestureDabbing,
    GestureUltraman,
    GestureRespect,
    GestureCheer,
    GestureLuckyCat,
    GestureBoxing,
    ZeroTorqueDrag,
    RecordTraj,
    RunRecordedTraj,
}

impl IntCoded for Action {
    open spec fn code_spec(self) -> int {
        match self {
            Action::Unknown => 0,
            Action::HandShake => 1,
            Action::HandWave => 2,
            Action::HandControl => 3,
            Action::DanceNewYear => 4,
            Action::DanceNezha => 5,
            Action::DanceTowardsFuture => 6,
            Action::GestureDabbing => 7,
            Action::GestureUltraman => 8,
            Action::GestureRespect => 9,
            Action::GestureCheer => 10,
            Action::GestureLuckyCat => 11,
            Action::GestureBoxing => 12,
            Action::ZeroTorqueDrag => 13,
            Action::RecordTraj => 14,
            Action::RunRecordedTraj => 15,
        }
    }

    open spec fn from_code_spec(code: int) -> Option<Self> {
        if code == 0 {
            Some(Action::Unknown)
        } else if code == 1 {
            Some(Action::HandShake)
        } else if code == 2 {
            Some(Action::HandWave)
        } else if code == 3 {
            Some(Action::HandControl)
        } else if code == 4 {
            Some(Action::DanceNewYear)
        } else if code == 5 {
            Some(Action::DanceNezha)
        } else if code == 6 {
            Some(Action::DanceTowardsFuture)
        } else if code == 7 {
            Some(Action::GestureDabbing)
        } else if code == 8 {
            Some(Action::GestureUltraman)
        } else if code == 9 {
            Some(Action::GestureRespect)
        } else if code == 10 {
            Some(Action::GestureCheer)
        } else if code == 11 {
            Some(Action::GestureLuckyCat)
        } else if code == 12 {
            Some(Action::GestureBoxing)
        } else if code == 13 {
            Some(Action::ZeroTorqueDrag)
        } else if code == 14 {
            Some(Action::RecordTraj)
        } else if code == 15 {
            Some(Action::RunRecordedTraj)
        } else {
            None
        }
    }

    proof fn lemma_round_trip(self) {
    }

    proof fn lemma_code_of_decoded(code: int) {
    }
}

impl From<Action> for i32 {
    fn from(v: Action) -> (r: i32) {
        match v {
            Action::Unknown => 0,
            Action::HandShake => 1,
            Action::HandWave => 2,
            Action::HandControl => 3,
            Action::DanceNewYear => 4,
            Action::DanceNezha => 5,
            Action::DanceTowardsFuture => 6,
            Action::GestureDabbing => 7,
            Action::GestureUltraman => 8,
            Action::GestureRespect => 9,
            Action::GestureCheer => 10,
            Action::GestureLuckyCat => 11,
            Action::GestureBoxing => 12,
            Action::ZeroTorqueDrag => 13,
            Action::RecordTraj => 14,
            Action::RunRecordedTraj => 15,
        }
    }
}

impl vstd::std_specs::convert::FromSpecImpl<Action> for i32 {
    open spec fn obeys_from_spec() -> bool {
        true
    }

    open spec fn from_spec(v: Action) -> i32 {
        v.code_spec() as i32
    }
}

impl TryFrom<i32> for Action {
    type Error = &'static str;

    fn try_from(v: i32) -> (r: Result<Action, &'static str>) {
        match v {
            0 => Ok(Action::Unknown),
            1 => Ok(Action::HandShake),
            2 => Ok(Action::HandWave),
            3 => Ok(Action::HandControl),
            4 => Ok(Action::DanceNewYear),
            5 => Ok(Action::DanceNezha),
            6 => Ok(Action::DanceTowardsFuture),
            7 => Ok(Action::GestureDabbing),
            8 => Ok(Action::GestureUltraman),
            9 => Ok(Action::GestureRespect),
            10 => Ok(Action::GestureCheer),
            11 => Ok(Action::GestureLuckyCat),
            12 => Ok(Action::GestureBoxing),
            13 => Ok(Action::ZeroTorqueDrag),
            14 => Ok(Action::RecordTraj),
            15 => Ok(Action::RunRecordedTraj),
            _ => Err(INVALID_CODE),
        }
    }
}

impl vstd::std_specs::convert::TryFromSpecImpl<i32> for Action {
    open spec fn obeys_try_from_spec() -> bool {
        true
    }

    open spec fn try_from_spec(v: i32) -> Result<Action, &'static str> {
        match Action::from_code_spec(v as int) {
            Some(m) => Ok(m),
            None => Err(INVALID_CODE),
        }
    }
}

/// A coordinate frame, by code.
#[derive(Debug, Clone, Copy, PartialEq, Eq, Hash, Structural)]
pub enum Frame {
    Unknown,
    Body,
    Head,
    LeftHand,
    RightHand,
    LeftFoot,
    RightFoot,
}

impl IntCoded for Frame {
    open spec fn code_spec(self) -> int {
        match self {
            Frame::Unknown => -1,
            Frame::Body => 0,
            Frame::Head => 1,
            Frame::LeftHand => 2,
            Frame::RightHand => 3,
            Frame::LeftFoot => 4,
            Frame::RightFoot => 5,
        }
    }

    open spec fn from_code_spec(code: int) -> Option<Self> {
        if code == -1 {
            Some(Frame::Unknown)
        } else if code == 0 {
            Some(Frame::Body)
        } else if code == 1 {
            Some(Frame::Head)
        } else if code == 2 {
            Some(Frame::LeftHand)
        } else if code == 3 {
            Some(Frame::RightHand)
        } else if code == 4 {
            Some(Frame::LeftFoot)
        } else if code == 5 {
            Some(Frame::RightFoot)
        } else {
            None
        }
    }

    proof fn lemma_round_trip(self) {
    }

    proof fn lemma_code_of_decoded(code: int) {
    }
}

impl From<Frame> for i32 {
    fn from(v: Frame) -> (r: i32) {
        match v {
            Frame::Unknown => -1,
            Frame::Body => 0,
            Frame::Head => 1,
            Frame::LeftHand => 2,
            Frame::RightHand => 3,
            Frame::LeftFoot => 4,
            Frame::RightFoot => 5,
        }
    }
}

impl vstd::std_specs::convert::FromSpecImpl<Frame> for i32 {
    open spec fn obeys_from_spec() -> bool {
        true
    }

    open spec fn from_spec(v: Frame) -> i32 {
        v.code_spec() as i32
    }
}

impl TryFrom<i32> for Frame {
    type Error = &'static str;

    fn try_from(v: i32) -> (r: Result<Frame, &'static str>) {
        match v {
            -1 => Ok(Frame::Unknown),
            0 => Ok(Frame::Body),
            1 => Ok(Frame::Head),
            2 => Ok(Frame::LeftHand),
            3 => Ok(Frame::RightHand),
            4 => Ok(Frame::LeftFoot),
            5 => Ok(Frame::RightFoot),
            _ => Err(INVALID_CODE),
        }
    }
}

impl vstd::std_specs::convert::TryFromSpecImpl<i32> for Frame {
    open spec fn obeys_try_from_spec() -> bool {
        true
    }

    open spec fn try_from_spec(v: i32) -> Result<Frame, &'static str> {
        match Frame::from_code_spec(v as int) {
            Some(m) => Ok(m),
            None => Err(INVALID_CODE),
        }
    }
}

/// Opening or closing a hand.
#[derive(Debug, Clone, Copy, PartialEq, Eq, Hash, Structural)]
pub enum HandAction {
    Open,
    Close,
}

impl IntCoded for HandAction {
    open spec fn code_spec(self) -> int {
        match self {
            HandAction::Open => 0,
            HandAction::Close => 1,
        }
    }

    open spec fn from_code_spec(code: int) -> Option<Self> {
        if code == 0 {
            Some(HandAction::Open)
        } else if code == 1 {
            Some(HandAction::Close)
        } else {
            None
        }
    }

    proof fn lemma_round_trip(self) {
    }

    proof fn lemma_code_of_decoded(code: int) {
    }
}

impl From<HandAction> for i32 {
    fn from(v: HandAction) -> (r: i32) {
        match v {
            HandAction::Open => 0,
            HandAction::Close => 1,
        }
    }
}

impl vstd::std_specs::convert::FromSpecImpl<HandAction> for i32 {
    open spec fn obeys_from_spec() -> bool {
        true
    }

    open spec fn from_spec(v: HandAction) -> i32 {
        v.code_spec() as i32
    }
}

impl TryFrom<i32> for HandAction {
    type Error = &'static str;

    fn try_from(v: i32) -> (r: Result<HandAction, &'static str>) {
        match v {
            0 => Ok(HandAction::Open),
            1 => Ok(HandAction::Close),
            _ => Err(INVALID_CODE),
        }
    }
}

impl vstd::std_specs::convert::TryFromSpecImpl<i32> for HandAction {
    open spec fn obeys_try_from_spec() -> bool {
        true
    }

    open spec fn try_from_spec(v: i32) -> Result<HandAction, &'static str> {
        match HandAction::from_code_spec(v as int) {
            Some(m) => Ok(m),
            None => Err(INVALID_CODE),
        }
    }
}

/// Model of a dexterous hand.
#[derive(Debug, Clone, Copy, PartialEq, Eq, Hash, Structural)]
pub enum BoosterHandType {
    InspireHand,
    InspireTouchHand,
    RevoHand,
    Unknown,
}

impl IntCoded for BoosterHandType {
    open spec fn code_spec(self) -> int {
        match self {
            BoosterHandType::InspireHand => 0,
            BoosterHandType::InspireTouchHand => 2,
            BoosterHandType::RevoHand => 3,
            BoosterHandType::Unknown => -1,
        }
    }

    open spec fn from_code_spec(code: int) -> Option<Self> {
        if code == 0 {
            Some(BoosterHandType::InspireHand)
        } else if code == 2 {
            Some(BoosterHandType::InspireTouchHand)
        } else if code == 3 {
            Some(BoosterHandType::RevoHand)
        } else if code == -1 {
            Some(BoosterHandType::Unknown)
        } else {
            None
        }
    }

    proof fn lemma_round_trip(self) {
    }

    proof fn lemma_code_of_decoded(code: int) {
    }
}

impl From<BoosterHandType> for i32 {
    fn from(v: BoosterHandType) -> (r: i32) {
        match v {
            BoosterHandType::InspireHand => 0,
            BoosterHandType::InspireTouchHand => 2,
            BoosterHandType::RevoHand => 3,
            BoosterHandType::Unknown => -1,
        }
    }
}

impl vstd::std_specs::convert::FromSpecImpl<BoosterHandType> for i32 {
    open spec fn obeys_from_spec() -> bool {
        true
    }

    open spec fn from_spec(v: BoosterHandType) -> i32 {
        v.code_spec() as i32
    }
}

impl TryFrom<i32> for BoosterHandType {
    type Error = &'static str;

    fn try_from(v: i32) -> (r: Result<BoosterHandType, &'static str>) {
        match v {
            0 => Ok(BoosterHandType::InspireHand),
            2 => Ok(BoosterHandType::InspireTouchHand),
            3 => Ok(BoosterHandType::RevoHand),
            -1 => Ok(BoosterHandType::Unknown),
            _ => Err(INVALID_CODE),
        }
    }
}

impl vstd::std_specs::convert::TryFromSpecImpl<i32> for BoosterHandType {
    open spec fn obeys_try_from_spec() -> bool {
        true
    }

    open spec fn try_from_spec(v: i32) -> Result<BoosterHandType, &'static str> {
        match BoosterHandType::from_code_spec(v as int) {
            Some(m) => Ok(m),
            None => Err(INVALID_CODE),
        }
    }
}

/// An upper-body dance or gesture.
#[derive(Debug, Clone, Copy, PartialEq, Eq, Hash, Structural)]
pub enum DanceId {
    NewYear,
    Nezha,
    TowardsFuture,
    DabbingGesture,
    UltramanGesture,
    RespectGesture,
    CheeringGesture,
    LuckyCatGesture,
    Stop,
}

impl IntCoded for DanceId {
    open spec fn code_spec(self) -> int {
        match self {
            DanceId::NewYear => 0,
            DanceId::Nezha => 1,
            DanceId::TowardsFuture => 2,
            DanceId::DabbingGesture => 3,
            DanceId::UltramanGesture => 4,
            DanceId::RespectGesture => 5,
            DanceId::CheeringGesture => 6,
            DanceId::LuckyCatGesture => 7,
            DanceId::Stop => 1000,
        }
    }

    open spec fn from_code_spec(code: int) -> Option<Self> {
        if code == 0 {
            Some(DanceId::NewYear)
        } else if code == 1 {
            Some(DanceId::Nezha)
        } else if code == 2 {
            Some(DanceId::TowardsFuture)
        } else if code == 3 {
            Some(DanceId::DabbingGesture)
        } else if code == 4 {
            Some(DanceId::UltramanGesture)
        } else if code == 5 {
            Some(DanceId::RespectGesture)
        } else if code == 6 {
            Some(DanceId::CheeringGesture)
        } else if code == 7 {
            Some(DanceId::LuckyCatGesture)
        } else if code == 1000 {
            Some(DanceId::Stop)
        } else {
            None
        }
    }

    proof fn lemma_round_trip(self) {
    }

    proof fn lemma_code_of_decoded(code: int) {
    }
}

impl From<DanceId> for i32 {
    fn from(v: DanceId) -> (r: i32) {
        match v {
            DanceId::NewYear => 0,
            DanceId::Nezha => 1,
            DanceId::TowardsFuture => 2,
            DanceId::DabbingGesture => 3,
            DanceId::UltramanGesture => 4,
            DanceId::RespectGesture => 5,
            DanceId::CheeringGesture => 6,
            DanceId::LuckyCatGesture => 7,
            DanceId::Stop => 1000,
        }
    }
}

impl vstd::std_specs::convert::FromSpecImpl<DanceId> for i32 {
    open spec fn obeys_from_spec() -> bool {
        true
    }

    open spec fn from_spec(v: DanceId) -> i32 {
        v.code_spec() as i32
    }
}

impl TryFrom<i32> for DanceId {
    type Error = &'static str;

    fn try_from(v: i32) -> (r: Result<DanceId, &'static str>) {
        match v {
            0 => Ok(DanceId::NewYear),
            1 => Ok(DanceId::Nezha),
            2 => Ok(DanceId::TowardsFuture),
            3 => Ok(DanceId::DabbingGesture),
            4 => Ok(DanceId::UltramanGesture),
            5 => Ok(DanceId::RespectGesture),
            6 => Ok(DanceId::CheeringGesture),
            7 => Ok(DanceId::LuckyCatGesture),
            1000 => Ok(DanceId::Stop),
            _ => Err(INVALID_CODE),
        }
    }
}

impl vstd::std_specs::convert::TryFromSpecImpl<i32> for DanceId {
    open spec fn obeys_try_from_spec() -> bool {
        true
    }

    open spec fn try_from_spec(v: i32) -> Result<DanceId, &'static str> {
        match DanceId::from_code_spec(v as int) {
            Some(m) => Ok(m),
            None => Err(INVALID_CODE),
        }
    }
}

/// A whole-body dance.
#[derive(Debug, Clone, Copy, PartialEq, Eq, Hash, Structural)]
pub enum WholeBodyDanceId {
    ArbicDance,
    MichaelDance1,
    MichaelDance2,
    MichaelDance3,
    MoonWalk,
    BoxingStyleKick,
    RoundhouseKick,
}

impl IntCoded for WholeBodyDanceId {
    open spec fn code_spec(self) -> int {
        match self {
            WholeBodyDanceId::ArbicDance => 0,
            WholeBodyDanceId::MichaelDance1 => 1,
            WholeBodyDanceId::MichaelDance2 => 2,
            WholeBodyDanceId::MichaelDance3 => 3,
            WholeBodyDanceId::MoonWalk => 4,
            WholeBodyDanceId::BoxingStyleKick => 5,
            WholeBodyDanceId::RoundhouseKick => 6,
        }
    }

    open spec fn from_code_spec(code: int) -> Option<Self> {
        if code == 0 {
            Some(WholeBodyDanceId::ArbicDance)
        } else if code == 1 {
            Some(WholeBodyDanceId::MichaelDance1)
        } else if code == 2 {
            Some(WholeBodyDanceId::MichaelDance2)
        } else if code == 3 {
            Some(WholeBodyDanceId::MichaelDance3)
        } else if code == 4 {
            Some(WholeBodyDanceId::MoonWalk)
        } else if code == 5 {
            Some(WholeBodyDanceId::BoxingStyleKick)
        } else if code == 6 {
            Some(WholeBodyDanceId::RoundhouseKick)
        } else {
            None
        }
    }

    proof fn lemma_round_trip(self) {
    }

    proof fn lemma_code_of_decoded(code: int) {
    }
}

impl From<WholeBodyDanceId> for i32 {
    fn from(v: WholeBodyDanceId) -> (r: i32) {
        match v {
            WholeBodyDanceId::ArbicDance => 0,
            WholeBodyDanceId::MichaelDance1 => 1,
            WholeBodyDanceId::MichaelDance2 => 2,
            WholeBodyDanceId::MichaelDance3 => 3,
            WholeBodyDanceId::MoonWalk => 4,
            WholeBodyDanceId::BoxingStyleKick => 5,
            WholeBodyDanceId::RoundhouseKick => 6,
        }
    }
}

impl vstd::std_specs::convert::FromSpecImpl<WholeBodyDanceId> for i32 {
    open spec fn obeys_from_spec() -> bool {
        true
    }

    open spec fn from_spec(v: WholeBodyDanceId) -> i32 {
        v.code_spec() as i32
    }
}

impl TryFrom<i32> for WholeBodyDanceId {
    type Error = &'static str;

    fn try_from(v: i32) -> (r: Result<WholeBodyDanceId, &'static str>) {
        match v {
            0 => Ok(WholeBodyDanceId::ArbicDance),
            1 => Ok(WholeBodyDanceId::MichaelDance1),
            2 => Ok(WholeBodyDanceId::MichaelDance2),
            3 => Ok(WholeBodyDanceId::MichaelDance3),
            4 => Ok(WholeBodyDanceId::MoonWalk),
            5 => Ok(WholeBodyDanceId::BoxingStyleKick),
            6 => Ok(WholeBodyDanceId::RoundhouseKick),
            _ => Err(INVALID_CODE),
        }
    }
}

impl vstd::std_specs::convert::TryFromSpecImpl<i32> for WholeBodyDanceId {
    open spec fn obeys_try_from_spec() -> bool {
        true
    }

    open spec fn try_from_spec(v: i32) -> Result<WholeBodyDanceId, &'static str> {
        match WholeBodyDanceId::from_code_spec(v as int) {
            Some(m) => Ok(m),
            None => Err(INVALID_CODE),
        }
    }
}

/// Joint ordering convention of a trained model.
#[derive(Debug, Clone, Copy, PartialEq, Eq, Hash, Structural)]
pub enum JointOrder {
    MuJoCo,
    IsaacLab,
}

impl IntCoded for JointOrder {
    open spec fn code_spec(self) -> int {
        match self {
            JointOrder::MuJoCo => 0,
            JointOrder::IsaacLab => 1,
        }
    }

    open spec fn from_code_spec(code: int) -> Option<Self> {
        if code == 0 {
            Some(JointOrder::MuJoCo)
        } else if code == 1 {
            Some(JointOrder::IsaacLab)
        } else {
            None
        }
    }

    proof fn lemma_round_trip(self) {
    }

    proof fn lemma_code_of_decoded(code: int) {
    }
}

impl From<JointOrder> for i32 {
    fn from(v: JointOrder) -> (r: i32) {
        match v {
            JointOrder::MuJoCo => 0,
            JointOrder::IsaacLab => 1,
        }
    }
}

impl vstd::std_specs::convert::FromSpecImpl<JointOrder> for i32 {
    open spec fn obeys_from_spec() -> bool {
        true
    }

    open spec fn from_spec(v: JointOrder) -> i32 {
        v.code_spec() as i32
    }
}

impl TryFrom<i32> for JointOrder {
    type Error = &'static str;

    fn try_from(v: i32) -> (r: Result<JointOrder, &'static str>) {
        match v {
            0 => Ok(JointOrder::MuJoCo),
            1 => Ok(JointOrder::IsaacLab),
            _ => Err(INVALID_CODE),
        }
    }
}

impl vstd::std_specs::convert::TryFromSpecImpl<i32> for JointOrder {
    open spec fn obeys_try_from_spec() -> bool {
        true
    }

    open spec fn try_from_spec(v: i32) -> Result<JointOrder, &'static str> {
        match JointOrder::from_code_spec(v as int) {
            Some(m) => Ok(m),
            None => Err(INVALID_CODE),
        }
    }
}

/// How a gripper is driven in a gripper call.
#[derive(Debug, Clone, Copy, PartialEq, Eq, Hash, Structural)]
pub enum GripperControlMode {
    Position,
    Force,
}

impl IntCoded for GripperControlMode {
    open spec fn code_spec(self) -> int {
        match self {
            GripperControlMode::Position => 0,
            GripperControlMode::Force => 1,
        }
    }

    open spec fn from_code_spec(code: int) -> Option<Self> {
        if code == 0 {
            Some(GripperControlMode::Position)
        } else if code == 1 {
            Some(GripperControlMode::Force)
        } else {
            None
        }
    }

    proof fn lemma_round_trip(self) {
    }

    proof fn lemma_code_of_decoded(code: int) {
    }
}

impl From<GripperControlMode> for i32 {
    fn from(v: GripperControlMode) -> (r: i32) {
        match v {
            GripperControlMode::Position => 0,
            GripperControlMode::Force => 1,
        }
    }
}

impl vstd::std_specs::convert::FromSpecImpl<GripperControlMode> for i32 {
    open spec fn obeys_from_spec() -> bool {
        true
    }

    open spec fn from_spec(v: GripperControlMode) -> i32 {
        v.code_spec() as i32
    }
}

impl TryFrom<i32> for GripperControlMode {
    type Error = &'static str;

    fn try_from(v: i32) -> (r: Result<GripperControlMode, &'static str>) {
        match v {
            0 => Ok(GripperControlMode::Position),
            1 => Ok(GripperControlMode::Force),
            _ => Err(INVALID_CODE),
        }
    }
}

impl vstd::std_specs::convert::TryFromSpecImpl<i32> for GripperControlMode {
    open spec fn obeys_try_from_spec() -> bool {
        true
    }

    open spec fn try_from_spec(v: i32) -> Result<GripperControlMode, &'static str> {
        match GripperControlMode::from_code_spec(v as int) {
            Some(m) => Ok(m),
            None => Err(INVALID_CODE),
        }
    }
}

/// Motion of a gripper.
#[derive(Debug, Clone, Copy, PartialEq, Eq, Structural)]
pub struct GripperMotionParameter {
    pub position: i32,
    pub force: i32,
    pub speed: i32,
}

/// Target of one finger of a dexterous hand.
#[derive(Debug, Clone, Copy, PartialEq, Eq, Structural)]
pub struct DexterousFingerParameter {
    pub seq: i32,
    pub angle: i32,
    pub force: i32,
    pub speed: i32,
}

/// Result of the get-mode call.
#[derive(Debug, Clone, Copy, PartialEq, Eq, Structural)]
pub struct GetModeResponse {
    pub mode: i32,
}

impl GetModeResponse {
    /// The reported mode, if its code is known.
    pub fn mode_enum(&self) -> (r: Option<RobotMode>)
        ensures
            r == RobotMode::from_code_spec(self.mode as int),
    {
        match RobotMode::try_from(self.mode) {
            Ok(m) => Some(m),
            Err(_) => None,
        }
    }
}

/// The actions that a list of codes names, in order, skipping unknown codes.
pub open spec fn known_actions(codes: Seq<i32>) -> Seq<Action>
    decreases codes.len(),
{
    if codes.len() == 0 {
        Seq::empty()
    } else {
        known_actions(codes.drop_last()) + match Action::from_code_spec(codes.last() as int) {
            Some(a) => seq![a],
            None => Seq::empty(),
        }
    }
}

/// Result of the get-status call.
#[derive(Debug, Clone, PartialEq, Eq)]
pub struct GetStatusResponse {
    pub current_mode: i32,
    pub current_body_control: i32,
    pub current_actions: Vec<i32>,
}

impl GetStatusResponse {
    /// The reported mode, if its code is known.
    pub fn current_mode_enum(&self) -> (r: Option<RobotMode>)
        ensures
            r == RobotMode::from_code_spec(self.current_mode as int),
    {
        match RobotMode::try_from(self.current_mode) {
            Ok(m) => Some(m),
            Err(_) => None,
        }
    }

    /// The reported body controller, if its code is known.
    pub fn current_body_control_enum(&self) -> (r: Option<BodyControl>)
        ensures
            r == BodyControl::from_code_spec(self.current_body_control as int),
    {
        match BodyControl::try_from(self.current_body_control) {
            Ok(b) => Some(b),
            Err(_) => None,
        }
    }

    /// The reported actions whose codes are known, in the order reported.
    pub fn current_actions_enum(&self) -> (r: Vec<Action>)
        ensures
            r@ == known_actions(self.current_actions@),
    {
        let mut out: Vec<Action> = Vec::new();
        let mut i: usize = 0;
        while i < self.current_actions.len()
            invariant
                i <= self.current_actions@.len(),
                out@ == known_actions(self.current_actions@.subrange(0, i as int)),
            decreases self.current_actions@.len() - i,
        {
            let code = self.current_actions[i];
            proof {
                let next = self.current_actions@.subrange(0, i + 1);
                assert(next.drop_last() =~= self.current_actions@.subrange(0, i as int));
                assert(next.last() == code);
            }
            match Action::try_from(code) {
                Ok(a) => {
                    out.push(a);
                },
                Err(_) => {},
            }
            proof {
                let next = self.current_actions@.subrange(0, i + 1);
                assert(out@ =~= known_actions(next));
            }
            i = i + 1;
        }
        proof {
            assert(self.current_actions@.subrange(0, i as int) =~= self.current_actions@);
        }
        out
    }
}

/// Result of the get-robot-info call.
#[derive(Debug, Clone, PartialEq, Eq)]
pub struct GetRobotInfoResponse {
    pub name: String,
    pub nickname: String,
    pub version: String,
    pub model: String,
    pub serial_number: String,
}

/// Result of loading a custom trained trajectory: its id.
#[derive(Debug, Clone, PartialEq, Eq)]
pub struct LoadCustomTrainedTrajResponse {
    pub tid: String,
}

/// The hand index of the locomotion calls.
pub type HandIndex = Hand;

} // verus!
