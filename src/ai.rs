//! Identifiers and payloads of the AI chat and speech services.

use vstd::prelude::*;
use crate::coded::{IntCoded, INVALID_CODE};

verus! {

/// Operations of the AI chat service.
#[derive(Debug, Clone, Copy, PartialEq, Eq, Hash, Structural)]
pub enum AiApiId {
    StartAiChat,
    StopAiChat,
    Speak,
    StartFaceTracking,
    StopFaceTracking,
}

impl IntCoded for AiApiId {
    open spec fn code_spec(self) -> int {
        match self {
            AiApiId::StartAiChat => 2000,
            AiApiId::StopAiChat => 2001,
            AiApiId::Speak => 2002,
            AiApiId::StartFaceTracking => 2003,
            AiApiId::StopFaceTracking => 2004,
        }
    }

    open spec fn from_code_spec(code: int) -> Option<Self> {
        if code == 2000 {
            Some(AiApiId::StartAiChat)
        } else if code == 2001 {
            Some(AiApiId::StopAiChat)
        } else if code == 2002 {
            Some(AiApiId::Speak)
        } else if code == 2003 {
            Some(AiApiId::StartFaceTracking)
        } else if code == 2004 {
            Some(AiApiId::StopFaceTracking)
        } else {
            None
        }
    }

    proof fn lemma_round_trip(self) {
    }

    proof fn lemma_code_of_decoded(code: int) {
    }
}

impl From<AiApiId> for i32 {
    fn from(v: AiApiId) -> (r: i32) {
        match v {
            AiApiId::StartAiChat => 2000,
            AiApiId::StopAiChat => 2001,
            AiApiId::Speak => 2002,
            AiApiId::StartFaceTracking => 2003,
            AiApiId::StopFaceTracking => 2004,
        }
    }
}

impl vstd::std_specs::convert::FromSpecImpl<AiApiId> for i32 {
    open spec fn obeys_from_spec() -> bool {
        true
    }

    open spec fn from_spec(v: AiApiId) -> i32 {
        v.code_spec() as i32
    }
}

impl TryFrom<i32> for AiApiId {
    type Error = &'static str;

    fn try_from(v: i32) -> (r: Result<AiApiId, &'static str>) {
        match v {
            2000 => Ok(AiApiId::StartAiChat),
            2001 => Ok(AiApiId::StopAiChat),
            2002 => Ok(AiApiId::Speak),
            2003 => Ok(AiApiId::StartFaceTracking),
            2004 => Ok(AiApiId::StopFaceTracking),
            _ => Err(INVALID_CODE),
        }
    }
}

impl vstd::std_specs::convert::TryFromSpecImpl<i32> for AiApiId {
    open spec fn obeys_try_from_spec() -> bool {
        true
    }

    open spec fn try_from_spec(v: i32) -> Result<AiApiId, &'static str> {
        match AiApiId::from_code_spec(v as int) {
            Some(m) => Ok(m),
            None => Err(INVALID_CODE),
        }
    }
}

/// Operations of the speech service.
#[derive(Debug, Clone, Copy, PartialEq, Eq, Hash, Structural)]
pub enum LuiApiId {
    StartAsr,
    StopAsr,
    StartTts,
    StopTts,
    SendTtsText,
}

impl IntCoded for LuiApiId {
    open spec fn code_spec(self) -> int {
        match self {
            LuiApiId::StartAsr => 1000,
            LuiApiId::StopAsr => 1001,
            LuiApiId::StartTts => 1050,
            LuiApiId::StopTts => 1051,
            LuiApiId::SendTtsText => 1052,
        }
    }

    open spec fn from_code_spec(code: int) -> Option<Self> {
        if code == 1000 {
            Some(LuiApiId::StartAsr)
        } else if code == 1001 {
            Some(LuiApiId::StopAsr)
        } else if code == 1050 {
            Some(LuiApiId::StartTts)
        } else if code == 1051 {
            Some(LuiApiId::StopTts)
        } else if code == 1052 {
            Some(LuiApiId::SendTtsText)
        } else {
            None
        }
    }

    proof fn lemma_round_trip(self) {
    }

    proof fn lemma_code_of_decoded(code: int) {
    }
}

impl From<LuiApiId> for i32 {
    fn from(v: LuiApiId) -> (r: i32) {
        match v {
            LuiApiId::StartAsr => 1000,
            LuiApiId::StopAsr => 1001,
            LuiApiId::StartTts => 1050,
            LuiApiId::StopTts => 1051,
            LuiApiId::SendTtsText => 1052,
        }
    }
}

impl vstd::std_specs::convert::FromSpecImpl<LuiApiId> for i32 {
    open spec fn obeys_from_spec() -> bool {
        true
    }

    open spec fn from_spec(v: LuiApiId) -> i32 {
        v.code_spec() as i32
    }
}

impl TryFrom<i32> for LuiApiId {
    type Error = &'static str;

    fn try_from(v: i32) -> (r: Result<LuiApiId, &'static str>) {
        match v {
            1000 => Ok(LuiApiId::StartAsr),
            1001 => Ok(LuiApiId::StopAsr),
            1050 => Ok(LuiApiId::StartTts),
            1051 => Ok(LuiApiId::StopTts),
            1052 => Ok(LuiApiId::SendTtsText),
            _ => Err(INVALID_CODE),
        }
    }
}

impl vstd::std_specs::convert::TryFromSpecImpl<i32> for LuiApiId {
    open spec fn obeys_try_from_spec() -> bool {
        true
    }

    open spec fn try_from_spec(v: i32) -> Result<LuiApiId, &'static str> {
        match LuiApiId::from_code_spec(v as int) {
            Some(m) => Ok(m),
            None => Err(INVALID_CODE),
        }
    }
}

/// User id of the robot in subtitles.
pub const BOOSTER_ROBOT_USER_ID: &'static str = "BoosterRobot";

/// Speech synthesis settings of an AI chat.
#[derive(Debug, Clone, PartialEq, Eq)]
pub struct TtsConfig {
    pub voice_type: String,
    pub ignore_bracket_text: Vec<i8>,
}

/// Language model settings of an AI chat.
#[derive(Debug, Clone, PartialEq, Eq)]
pub struct LlmConfig {
    pub system_prompt: String,
    pub welcome_msg: String,
    pub prompt_name: String,
}

/// Speech recognition settings of an AI chat.
#[derive(Debug, Clone, PartialEq, Eq)]
pub struct AsrConfig {
    pub interrupt_speech_duration: i32,
    pub interrupt_keywords: Vec<String>,
}

/// Parameters of the start-AI-chat call.
#[derive(Debug, Clone, PartialEq, Eq)]
pub struct StartAiChatParameter {
    pub interrupt_mode: bool,
    pub asr_config: AsrConfig,
    pub llm_config: LlmConfig,
    pub tts_config: TtsConfig,
    pub enable_face_tracking: bool,
}

/// Parameters of the speak call.
#[derive(Debug, Clone, PartialEq, Eq)]
pub struct SpeakParameter {
    pub msg: String,
}

/// Parameters of the start-speech-synthesis call.
#[derive(Debug, Clone, PartialEq, Eq)]
pub struct LuiTtsConfig {
    pub voice_type: String,
}

/// Parameters of the send-speech-text call.
#[derive(Debug, Clone, PartialEq, Eq)]
pub struct LuiTtsParameter {
    pub text: String,
}

/// A subtitle published by the AI chat.
#[derive(Debug, Clone, PartialEq, Eq)]
pub struct Subtitle {
    pub magic_number: String,
    pub text: String,
    pub language: String,
    pub user_id: String,
    pub seq: i32,
    pub definite: bool,
    pub paragraph: bool,
    pub round_id: i32,
}

/// A chunk of recognized speech.
#[derive(Debug, Clone, PartialEq, Eq)]
pub struct AsrChunk {
    pub text: String,
}

} // verus!
