//! Identifiers and payloads of the vision service.

use vstd::prelude::*;
use crate::coded::{IntCoded, INVALID_CODE};

verus! {

/// Operations of the vision service.
#[derive(Debug, Clone, Copy, PartialEq, Eq, Hash, Structural)]
pub enum VisionApiId {
    StartVisionService,
    StopVisionService,
    GetDetectionObject,
}

impl IntCoded for VisionApiId {
    open spec fn code_spec(self) -> int {
        match self {
            VisionApiId::StartVisionService => 3000,
            VisionApiId::StopVisionService => 3001,
            VisionApiId::GetDetectionObject => 3002,
        }
    }

    open spec fn from_code_spec(code: int) -> Option<Self> {
        if code == 3000 {
            Some(VisionApiId::StartVisionService)
        } else if code == 3001 {
            Some(VisionApiId::StopVisionService)
        } else if code == 3002 {
            Some(VisionApiId::GetDetectionObject)
        } else {
            None
        }
    }

    proof fn lemma_round_trip(self) {
    }

    proof fn lemma_code_of_decoded(code: int) {
    }
}

impl From<VisionApiId> for i32 {
    fn from(v: VisionApiId) -> (r: i32) {
        match v {
            VisionApiId::StartVisionService => 3000,
            VisionApiId::StopVisionService => 3001,
            VisionApiId::GetDetectionObject => 3002,
        }
    }
}

impl vstd::std_specs::convert::FromSpecImpl<VisionApiId> for i32 {
    open spec fn obeys_from_spec() -> bool {
        true
    }

    open spec fn from_spec(v: VisionApiId) -> i32 {
        v.code_spec() as i32
    }
}

impl TryFrom<i32> for VisionApiId {
    type Error = &'static str;

    fn try_from(v: i32) -> (r: Result<VisionApiId, &'static str>) {
        match v {
            3000 => Ok(VisionApiId::StartVisionService),
            3001 => Ok(VisionApiId::StopVisionService),
            3002 => Ok(VisionApiId::GetDetectionObject),
            _ => Err(INVALID_CODE),
        }
    }
}

impl vstd::std_specs::convert::TryFromSpecImpl<i32> for VisionApiId {
    open spec fn obeys_try_from_spec() -> bool {
        true
    }

    open spec fn try_from_spec(v: i32) -> Result<VisionApiId, &'static str> {
        match VisionApiId::from_code_spec(v as int) {
            Some(m) => Ok(m),
            None => Err(INVALID_CODE),
        }
    }
}

/// Which detections the vision service runs.
#[derive(Debug, Clone, Copy, PartialEq, Eq, Structural)]
pub struct StartVisionServiceParameter {
    pub enable_position: bool,
    pub enable_color: bool,
    pub enable_face_detection: bool,
}

} // verus!
