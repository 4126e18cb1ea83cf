//! The closed set of frame kinds and their numeric wire values.

use vstd::prelude::*;

verus! {

/// Kind of a WebSocket frame.
#[derive(Debug, Clone, Copy, PartialEq, Eq, Structural)]
pub enum OpCode {
    Continuation,
    Text,
    Binary,
    Close,
    Ping,
    Pong,
}

impl OpCode {
    /// The 4-bit value that stands for this opcode on the wire.
    pub open spec fn wire_value(self) -> u8 {
        match self {
            OpCode::Continuation => 0,
            OpCode::Text => 1,
            OpCode::Binary => 2,
            OpCode::Close => 8,
            OpCode::Ping => 9,
            OpCode::Pong => 10,
        }
    }

    /// The opcode that a wire value stands for, if any.
    pub open spec fn of_wire(num: u8) -> Option<OpCode> {
        if num == 0 {
            Some(OpCode::Continuation)
        } else if num == 1 {
            Some(OpCode::Text)
        } else if num == 2 {
            Some(OpCode::Binary)
        } else if num == 8 {
            Some(OpCode::Close)
        } else if num == 9 {
            Some(OpCode::Ping)
        } else if num == 10 {
            Some(OpCode::Pong)
        } else {
            None
        }
    }

    /// Close, Ping and Pong carry protocol signalling rather than data.
    pub open spec fn control(self) -> bool {
        self == OpCode::Close || self == OpCode::Ping || self == OpCode::Pong
    }

    /// Maps a wire value to its opcode; every value outside the registry is
    /// rejected.
    pub fn from_num(num: u8) -> (r: Option<OpCode>)
        ensures
            r == OpCode::of_wire(num),
    {
        match num {
            0 => Some(OpCode::Continuation),
            1 => Some(OpCode::Text),
            2 => Some(OpCode::Binary),
            8 => Some(OpCode::Close),
            9 => Some(OpCode::Ping),
            10 => Some(OpCode::Pong),
            _ => None,
        }
    }

    /// The wire value of this opcode.
    pub fn to_num(self) -> (n: u8)
        ensures
            n == self.wire_value(),
            n < 16,
    {
        match self {
            OpCode::Continuation => 0,
            OpCode::Text => 1,
            OpCode::Binary => 2,
            OpCode::Close => 8,
            OpCode::Ping => 9,
            OpCode::Pong => 10,
        }
    }

    /// Whether this is a control opcode.
    pub fn is_control(self) -> (b: bool)
        ensures
            b == self.control(),
    {
        match self {
            OpCode::Close | OpCode::Ping | OpCode::Pong => true,
            _ => false,
        }
    }
}

/// The registry is a bijection between the six opcodes and the wire values
/// 0, 1, 2, 8, 9 and 10: reading back the wire value of an opcode gives the
/// opcode, and a wire value that maps to an opcode is that opcode's value.
pub proof fn lemma_opcode_registry(op: OpCode, num: u8)
    ensures
        OpCode::of_wire(op.wire_value()) == Some(op),
        OpCode::of_wire(num) == Some(op) ==> op.wire_value() == num,
        OpCode::of_wire(num) is Some <==> (num == 0 || num == 1 || num == 2 || num == 8 || num == 9
            || num == 10),
        op.wire_value() < 16,
{
}

} // verus!
