//! Low-level command categories and fall events.

use vstd::prelude::*;
use crate::coded::IntCoded;

verus! {

/// Which motors a low-level command drives.
#[derive(Debug, Clone, Copy, PartialEq, Eq, Hash, Structural)]
pub enum CommandType {
    /// The parallel motors.
    Parallel,
    /// The serial motors.
    Serial,
}

impl IntCoded for CommandType {
    open spec fn code_spec(self) -> int {
        match self {
            CommandType::Parallel => 0,
            CommandType::Serial => 1,
        }
    }

    open spec fn from_code_spec(code: int) -> Option<Self> {
        if code == 0 {
            Some(CommandType::Parallel)
        } else if code == 1 {
            Some(CommandType::Serial)
        } else {
            None
        }
    }

    proof fn lemma_round_trip(self) {
    }

    proof fn lemma_code_of_decoded(code: int) {
    }
}

impl From<CommandType> for u32 {
    fn from(v: CommandType) -> (r: u32) {
        match v {
            CommandType::Parallel => 0,
            CommandType::Serial => 1,
        }
    }
}

impl vstd::std_specs::convert::FromSpecImpl<CommandType> for u32 {
    open spec fn obeys_from_spec() -> bool {
        true
    }

    open spec fn from_spec(v: CommandType) -> u32 {
        v.code_spec() as u32
    }
}

impl From<CommandType> for u8 {
    fn from(v: CommandType) -> (r: u8) {
        match v {
            CommandType::Parallel => 0,
            CommandType::Serial => 1,
        }
    }
}

impl vstd::std_specs::convert::FromSpecImpl<CommandType> for u8 {
    open spec fn obeys_from_spec() -> bool {
        true
    }

    open spec fn from_spec(v: CommandType) -> u8 {
        v.code_spec() as u8
    }
}

impl TryFrom<u32> for CommandType {
    type Error = ();

    fn try_from(v: u32) -> (r: Result<CommandType, ()>) {
        match v {
            0 => Ok(CommandType::Parallel),
            1 => Ok(CommandType::Serial),
            _ => Err(()),
        }
    }
}

impl vstd::std_specs::convert::TryFromSpecImpl<u32> for CommandType {
    open spec fn obeys_try_from_spec() -> bool {
        true
    }

    open spec fn try_from_spec(v: u32) -> Result<CommandType, ()> {
        match CommandType::from_code_spec(v as int) {
            Some(m) => Ok(m),
            None => Err(()),
        }
    }
}

impl TryFrom<u8> for CommandType {
    type Error = ();

    fn try_from(v: u8) -> (r: Result<CommandType, ()>) {
        match v {
            0 => Ok(CommandType::Parallel),
            1 => Ok(CommandType::Serial),
            _ => Err(()),
        }
    }
}

impl vstd::std_specs::convert::TryFromSpecImpl<u8> for CommandType {
    open spec fn obeys_try_from_spec() -> bool {
        true
    }

    open spec fn try_from_spec(v: u8) -> Result<CommandType, ()> {
        match CommandType::from_code_spec(v as int) {
            Some(m) => Ok(m),
            None => Err(()),
        }
    }
}

/// A fall detection report.
#[derive(Debug, Clone, Copy, PartialEq, Eq, Structural)]
pub struct FallEvent {
    /// When the fall was detected.
    pub timestamp: u64,
    /// Whether a fall was detected.
    pub detected: bool,
}

impl Default for FallEvent {
    fn default() -> (r: FallEvent)
        ensures
            r == (FallEvent { timestamp: 0, detected: false }),
    {
        FallEvent { timestamp: 0, detected: false }
    }
}

} // verus!
