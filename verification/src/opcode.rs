//! Command codes of the ICMU wire protocol.

use vstd::prelude::*;

verus! {

/// A command of the ICMU. Its code is the first byte of every frame.
#[derive(Clone, Copy, Debug, PartialEq, Eq, Structural)]
pub enum Opcode {
    Activate,
    SdadTransmission,
    SdadStatus,
    ReadRegister,
    WriteRegister,
    RegisterStatusData,
}

impl Opcode {
    /// The code that the hardware assigns to this command.
    pub open spec fn code(self) -> u8 {
        match self {
            Opcode::Activate => 0xB0,
            Opcode::SdadTransmission => 0xA6,
            Opcode::SdadStatus => 0xF5,
            Opcode::ReadRegister => 0x97,
            Opcode::WriteRegister => 0xD2,
            Opcode::RegisterStatusData => 0xAD,
        }
    }

    /// The command's code as a byte for the wire.
    pub fn byte(self) -> (b: u8)
        ensures
            b == self.code(),
    {
        match self {
            Opcode::Activate => 0xB0,
            Opcode::SdadTransmission => 0xA6,
            Opcode::SdadStatus => 0xF5,
            Opcode::ReadRegister => 0x97,
            Opcode::WriteRegister => 0xD2,
            Opcode::RegisterStatusData => 0xAD,
        }
    }
}

} // verus!
