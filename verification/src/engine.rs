//! What the duel engine reports back to its host.
use vstd::prelude::*;

verus! {

/// The state the duel reached after the engine processed.
#[derive(Clone, Copy, Debug, PartialEq, Eq, Structural)]
pub enum ProcessResultFlags {
    /// The duel keeps processing normally.
    Continue,
    /// The duel is waiting for a player response.
    Waiting,
    /// The duel has finished.
    End,
}

/// What a processing step returned: the length of the message data produced and the
/// state reached.
#[derive(Clone, Copy, Debug, PartialEq, Eq, Structural)]
pub struct ProcessResult {
    /// Length in bytes of the message data the engine produced (28 bits).
    pub data_length: u32,
    pub flags: ProcessResultFlags,
}

impl ProcessResult {
    /// Split the engine's 32-bit answer: the low 28 bits are the data length, the high
    /// 4 bits the state (0 processing, 1 waiting, 2 end). Any other state is refused
    /// with `None`.
    pub fn from_bits(bits: u32) -> (r: Option<ProcessResult>)
        ensures
            bits / 0x1000_0000 == 0 ==> r == Some(ProcessResult { data_length: bits % 0x1000_0000, flags: ProcessResultFlags::Continue }),
            bits / 0x1000_0000 == 1 ==> r == Some(ProcessResult { data_length: bits % 0x1000_0000, flags: ProcessResultFlags::Waiting }),
            bits / 0x1000_0000 == 2 ==> r == Some(ProcessResult { data_length: bits % 0x1000_0000, flags: ProcessResultFlags::End }),
            bits / 0x1000_0000 > 2 ==> r is None,
    {
        let length = bits % 0x1000_0000;
        let state = bits / 0x1000_0000;
        if state == 0 {
            Some(ProcessResult { data_length: length, flags: ProcessResultFlags::Continue })
        } else if state == 1 {
            Some(ProcessResult { data_length: length, flags: ProcessResultFlags::Waiting })
        } else if state == 2 {
            Some(ProcessResult { data_length: length, flags: ProcessResultFlags::End })
        } else {
            None
        }
    }
}

/// Failure to register a function with the engine's script runtime.
#[derive(Clone, Copy, Debug, PartialEq, Eq, Structural)]
pub enum RegistrationError {
    /// The duel has already ended.
    DuelEnded,
    /// A name contains a NUL byte, or the function name is empty.
    InvalidName,
    /// The named global is absent or is not a table.
    MissingTable,
    /// The runtime could not complete registration.
    LuaError,
}

/// Failure to replace a script function through a duel host.
#[derive(Clone, Copy, Debug, PartialEq, Eq, Structural)]
pub enum LuaRegistrationError {
    /// The duel stopped before acknowledging the request.
    HostClosed,
    /// The engine rejected registration.
    Core(RegistrationError),
}

} // verus!
