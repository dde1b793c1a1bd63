//! The function-code registry: the closed set of operation codes this core
//! supports, plus the protocol's error-indicator constant.

use vstd::prelude::*;

verus! {

/// The high bit a responder sets on the function-code byte to signal an
/// exception response. Owned by this registry because it is part of the
/// function-code byte's semantics; decoding it is a transport concern.
pub const ERROR_DELIMITER: u8 = 0x80;

/// The closed set of supported operation codes.
#[derive(Clone, Copy, Debug, PartialEq, Eq, Structural)]
pub enum FunctionCode {
    ReadCoils,
    ReadDiscreteInputs,
    ReadHoldingRegisters,
    ReadInputRegisters,
    WriteSingleCoil,
}

impl FunctionCode {
    /// The numeric code this operation uses on the wire.
    pub open spec fn spec_value(self) -> u8 {
        match self {
            FunctionCode::ReadCoils => 1,
            FunctionCode::ReadDiscreteInputs => 2,
            FunctionCode::ReadHoldingRegisters => 3,
            FunctionCode::ReadInputRegisters => 4,
            FunctionCode::WriteSingleCoil => 5,
        }
    }

    /// Returns the wire representation of the operation.
    pub fn get_value(self) -> (v: u8)
        ensures
            v == self.spec_value(),
    {
        match self {
            FunctionCode::ReadCoils => 1,
            FunctionCode::ReadDiscreteInputs => 2,
            FunctionCode::ReadHoldingRegisters => 3,
            FunctionCode::ReadInputRegisters => 4,
            FunctionCode::WriteSingleCoil => 5,
        }
    }
}

} // verus!
