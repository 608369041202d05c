//! Decoding of the firmware call that a guest makes with `ecall`.
//!
//! The guest passes the call in its argument registers: the extension in
//! `a7`, the function of the extension in `a6`, the arguments from `a0` on.

use vstd::prelude::*;

verus! {

/// Legacy extension: program the timer.
pub const EXT_SET_TIMER: u64 = 0x0;

/// Legacy extension: write a character to the console.
pub const EXT_PUT_CHAR: u64 = 0x1;

/// Legacy extension: read a character from the console.
pub const EXT_GET_CHAR: u64 = 0x2;

/// Legacy extension: shut the system down.
pub const EXT_SHUTDOWN: u64 = 0x8;

/// System reset extension, "SRST".
pub const EXT_RESET: u64 = 0x5352_5354;

/// The one function of the system reset extension.
pub const RESET_FUNCTION_SYSTEM_RESET: u64 = 0;

/// Reset type: shut down.
pub const RESET_TYPE_SHUTDOWN: u64 = 0;

/// Reset type: cold reboot.
pub const RESET_TYPE_COLD_REBOOT: u64 = 1;

/// Reset type: warm reboot.
pub const RESET_TYPE_WARM_REBOOT: u64 = 2;

/// A firmware call of the guest.
#[derive(Clone, Copy, Debug, PartialEq, Eq, Structural)]
pub enum SbiMessage {
    /// Program the timer for the given time.
    SetTimer(u64),
    /// Write the given character to the console.
    PutChar(u64),
    /// Read a character from the console.
    GetChar,
    /// Reset the system; the field is the reset type.
    Reset(u64),
}

/// Why a firmware call could not be decoded.
#[derive(Clone, Copy, Debug, PartialEq, Eq, Structural)]
pub enum SbiError {
    /// The extension, or the function of the extension, is not known.
    NotSupported,
    /// The extension and function are known, an argument is out of range.
    InvalidParam,
}

/// The firmware call that the argument registers `args` (`a0` first, `a7`
/// last) stand for.
pub open spec fn spec_from_regs(args: Seq<u64>) -> Result<SbiMessage, SbiError> {
    if args[7] == EXT_SET_TIMER {
        Ok(SbiMessage::SetTimer(args[0]))
    } else if args[7] == EXT_PUT_CHAR {
        Ok(SbiMessage::PutChar(args[0]))
    } else if args[7] == EXT_GET_CHAR {
        Ok(SbiMessage::GetChar)
    } else if args[7] == EXT_SHUTDOWN {
        Ok(SbiMessage::Reset(RESET_TYPE_SHUTDOWN))
    } else if args[7] == EXT_RESET {
        if args[6] != RESET_FUNCTION_SYSTEM_RESET {
            Err(SbiError::NotSupported)
        } else if args[0] <= RESET_TYPE_WARM_REBOOT {
            Ok(SbiMessage::Reset(args[0]))
        } else {
            Err(SbiError::InvalidParam)
        }
    } else {
        Err(SbiError::NotSupported)
    }
}

impl SbiMessage {
    /// Decodes the firmware call in the guest's argument registers, `a0`
    /// first and `a7` last.
    pub fn from_regs(args: &[u64; 8]) -> (r: Result<SbiMessage, SbiError>)
        ensures
            r == spec_from_regs(args@),
    {
        let extension = args[7];
        if extension == EXT_SET_TIMER {
            Ok(SbiMessage::SetTimer(args[0]))
        } else if extension == EXT_PUT_CHAR {
            Ok(SbiMessage::PutChar(args[0]))
        } else if extension == EXT_GET_CHAR {
            Ok(SbiMessage::GetChar)
        } else if extension == EXT_SHUTDOWN {
            Ok(SbiMessage::Reset(RESET_TYPE_SHUTDOWN))
        } else if extension == EXT_RESET {
            if args[6] != RESET_FUNCTION_SYSTEM_RESET {
                Err(SbiError::NotSupported)
            } else if args[0] <= RESET_TYPE_WARM_REBOOT {
                Ok(SbiMessage::Reset(args[0]))
            } else {
                Err(SbiError::InvalidParam)
            }
        } else {
            Err(SbiError::NotSupported)
        }
    }
}

} // verus!
