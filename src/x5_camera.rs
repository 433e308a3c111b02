//! Identifiers and payloads of the camera control service.

use vstd::prelude::*;
use crate::coded::{IntCoded, INVALID_CODE};

verus! {

/// Operations of the camera control service.
#[derive(Debug, Clone, Copy, PartialEq, Eq, Hash, Structural)]
pub enum X5CameraApiId {
    ChangeMode,
    GetStatus,
}

impl IntCoded for X5CameraApiId {
    open spec fn code_spec(self) -> int {
        match self {
            X5CameraApiId::ChangeMode => 5001,
            X5CameraApiId::GetStatus => 5002,
        }
    }

    open spec fn from_code_spec(code: int) -> Option<Self> {
        if code == 5001 {
            Some(X5CameraApiId::ChangeMode)
        } else if code == 5002 {
            Some(X5CameraApiId::GetStatus)
        } else {
            None
        }
    }

    proof fn lemma_round_trip(self) {
    }

    proof fn lemma_code_of_decoded(code: int) {
    }
}

impl From<X5CameraApiId> for i32 {
    fn from(v: X5CameraApiId) -> (r: i32) {
        match v {
            X5CameraApiId::ChangeMode => 5001,
            X5CameraApiId::GetStatus => 5002,
        }
    }
}

impl vstd::std_specs::convert::FromSpecImpl<X5CameraApiId> for i32 {
    open spec fn obeys_from_spec() -> bool {
        true
    }

    open spec fn from_spec(v: X5CameraApiId) -> i32 {
        v.code_spec() as i32
    }
}

impl TryFrom<i32> for X5CameraApiId {
    type Error = &'static str;

    fn try_from(v: i32) -> (r: Result<X5CameraApiId, &'static str>) {
        match v {
            5001 => Ok(X5CameraApiId::ChangeMode),
            5002 => Ok(X5CameraApiId::GetStatus),
            _ => Err(INVALID_CODE),
        }
    }
}

impl vstd::std_specs::convert::TryFromSpecImpl<i32> for X5CameraApiId {
    open spec fn obeys_try_from_spec() -> bool {
        true
    }

    open spec fn try_from_spec(v: i32) -> Result<X5CameraApiId, &'static str> {
        match X5CameraApiId::from_code_spec(v as int) {
            Some(m) => Ok(m),
            None => Err(INVALID_CODE),
        }
    }
}

/// A camera mode to switch to.
#[derive(Debug, Clone, Copy, PartialEq, Eq, Hash, Structural)]
pub enum CameraSetMode {
    CameraModeNormal,
    CameraModeHighResolution,
    CameraModeNormalEnable,
    CameraModeHighResolutionEnable,
}

impl IntCoded for CameraSetMode {
    open spec fn code_spec(self) -> int {
        match self {
            CameraSetMode::CameraModeNormal => 0,
            CameraSetMode::CameraModeHighResolution => 1,
            CameraSetMode::CameraModeNormalEnable => 2,
            CameraSetMode::CameraModeHighResolutionEnable => 3,
        }
    }

    open spec fn from_code_spec(code: int) -> Option<Self> {
        if code == 0 {
            Some(CameraSetMode::CameraModeNormal)
        } else if code == 1 {
            Some(CameraSetMode::CameraModeHighResolution)
        } else if code == 2 {
            Some(CameraSetMode::CameraModeNormalEnable)
        } else if code == 3 {
            Some(CameraSetMode::CameraModeHighResolutionEnable)
        } else {
            None
        }
    }

    proof fn lemma_round_trip(self) {
    }

    proof fn lemma_code_of_decoded(code: int) {
    }
}

impl From<CameraSetMode> for i32 {
    fn from(v: CameraSetMode) -> (r: i32) {
        match v {
            CameraSetMode::CameraModeNormal => 0,
            CameraSetMode::CameraModeHighResolution => 1,
            CameraSetMode::CameraModeNormalEnable => 2,
            CameraSetMode::CameraModeHighResolutionEnable => 3,
        }
    }
}

impl vstd::std_specs::convert::FromSpecImpl<CameraSetMode> for i32 {
    open spec fn obeys_from_spec() -> bool {
        true
    }

    open spec fn from_spec(v: CameraSetMode) -> i32 {
        v.code_spec() as i32
    }
}

impl TryFrom<i32> for CameraSetMode {
    type Error = &'static str;

    fn try_from(v: i32) -> (r: Result<CameraSetMode, &'static str>) {
        match v {
            0 => Ok(CameraSetMode::CameraModeNormal),
            1 => Ok(CameraSetMode::CameraModeHighResolution),
            2 => Ok(CameraSetMode::CameraModeNormalEnable),
            3 => Ok(CameraSetMode::CameraModeHighResolutionEnable),
            _ => Err(INVALID_CODE),
        }
    }
}

impl vstd::std_specs::convert::TryFromSpecImpl<i32> for CameraSetMode {
    open spec fn obeys_try_from_spec() -> bool {
        true
    }

    open spec fn try_from_spec(v: i32) -> Result<CameraSetMode, &'static str> {
        match CameraSetMode::from_code_spec(v as int) {
            Some(m) => Ok(m),
            None => Err(INVALID_CODE),
        }
    }
}

/// The camera's reported state.
#[derive(Debug, Clone, Copy, PartialEq, Eq, Hash, Structural)]
pub enum CameraControlStatus {
    CameraStatusNormal,
    CameraStatusHighResolution,
    CameraStatusError,
    CameraStatusNull,
}

impl IntCoded for CameraControlStatus {
    open spec fn code_spec(self) -> int {
        match self {
            CameraControlStatus::CameraStatusNormal => 0,
            CameraControlStatus::CameraStatusHighResolution => 1,
            CameraControlStatus::CameraStatusError => 2,
            CameraControlStatus::CameraStatusNull => 3,
        }
    }

    open spec fn from_code_spec(code: int) -> Option<Self> {
        if code == 0 {
            Some(CameraControlStatus::CameraStatusNormal)
        } else if code == 1 {
            Some(CameraControlStatus::CameraStatusHighResolution)
        } else if code == 2 {
            Some(CameraControlStatus::CameraStatusError)
        } else if code == 3 {
            Some(CameraControlStatus::CameraStatusNull)
        } else {
            None
        }
    }

    proof fn lemma_round_trip(self) {
    }

    proof fn lemma_code_of_decoded(code: int) {
    }
}

impl From<CameraControlStatus> for i32 {
    fn from(v: CameraControlStatus) -> (r: i32) {
        match v {
            CameraControlStatus::CameraStatusNormal => 0,
            CameraControlStatus::CameraStatusHighResolution => 1,
            CameraControlStatus::CameraStatusError => 2,
            CameraControlStatus::CameraStatusNull => 3,
        }
    }
}

impl vstd::std_specs::convert::FromSpecImpl<CameraControlStatus> for i32 {
    open spec fn obeys_from_spec() -> bool {
        true
    }

    open spec fn from_spec(v: CameraControlStatus) -> i32 {
        v.code_spec() as i32
    }
}

impl TryFrom<i32> for CameraControlStatus {
    type Error = &'static str;

    fn try_from(v: i32) -> (r: Result<CameraControlStatus, &'static str>) {
        match v {
            0 => Ok(CameraControlStatus::CameraStatusNormal),
            1 => Ok(CameraControlStatus::CameraStatusHighResolution),
            2 => Ok(CameraControlStatus::CameraStatusError),
            3 => Ok(CameraControlStatus::CameraStatusNull),
            _ => Err(INVALID_CODE),
        }
    }
}

impl vstd::std_specs::convert::TryFromSpecImpl<i32> for CameraControlStatus {
    open spec fn obeys_try_from_spec() -> bool {
        true
    }

    open spec fn try_from_spec(v: i32) -> Result<CameraControlStatus, &'static str> {
        match CameraControlStatus::from_code_spec(v as int) {
            Some(m) => Ok(m),
            None => Err(INVALID_CODE),
        }
    }
}

/// Parameters of the camera change-mode call.
#[derive(Debug, Clone, Copy, PartialEq, Eq, Structural)]
pub struct ChangeModeParameter {
    pub mode: i32,
}

/// Result of the camera get-status call.
#[derive(Debug, Clone, Copy, PartialEq, Eq, Structural)]
pub struct GetStatusResponse {
    pub status: i32,
}

impl GetStatusResponse {
    /// The reported state, if its code is known.
    pub fn status_enum(&self) -> (r: Option<CameraControlStatus>)
        ensures
            r == CameraControlStatus::from_code_spec(self.status as int),
    {
        match CameraControlStatus::try_from(self.status) {
            Ok(s) => Some(s),
            Err(_) => None,
        }
    }
}

} // verus!
