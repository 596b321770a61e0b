use crate::cpu::VmError;
use vstd::prelude::*;

verus! {

pub const OPCODE_HALT: u16 = 0;

pub const OPCODE_SET: u16 = 1;

pub const OPCODE_PUSH: u16 = 2;

pub const OPCODE_POP: u16 = 3;

pub const OPCODE_EQ: u16 = 4;

pub const OPCODE_GT: u16 = 5;

pub const OPCODE_JMP: u16 = 6;

pub const OPCODE_JT: u16 = 7;

pub const OPCODE_JF: u16 = 8;

pub const OPCODE_ADD: u16 = 9;

pub const OPCODE_MULT: u16 = 10;

pub const OPCODE_MOD: u16 = 11;

pub const OPCODE_AND: u16 = 12;

pub const OPCODE_OR: u16 = 13;

pub const OPCODE_NOT: u16 = 14;

pub const OPCODE_RMEM: u16 = 15;

pub const OPCODE_WMEM: u16 = 16;

pub const OPCODE_CAL: u16 = 17;

pub const OPCODE_RET: u16 = 18;

pub const OPCODE_OUT: u16 = 19;

pub const OPCODE_IN: u16 = 20;

pub const OPCODE_NOOP: u16 = 21;

/// The instruction set: one variant per opcode number, 0 through 21.
#[derive(Clone, Copy, Debug, PartialEq, Eq, Structural)]
pub enum Opcode {
    Halt,
    SetReg,
    Push,
    Pop,
    Eq,
    Gt,
    Jmp,
    Jt,
    Jf,
    Add,
    Mult,
    Mod,
    And,
    Or,
    Not,
    Rmem,
    Wmem,
    Call,
    Ret,
    Out,
    In,
    Noop,
}

/// What decoding a word yields: the instruction it names, or UnknownOpcode
/// for any word outside the defined opcode numbers.
pub open spec fn decode_spec(num: u16) -> Result<Opcode, VmError> {
    if num == OPCODE_HALT {
        Ok(Opcode::Halt)
    } else if num == OPCODE_SET {
        Ok(Opcode::SetReg)
    } else if num == OPCODE_PUSH {
        Ok(Opcode::Push)
    } else if num == OPCODE_POP {
        Ok(Opcode::Pop)
    } else if num == OPCODE_EQ {
        Ok(Opcode::Eq)
    } else if num == OPCODE_GT {
        Ok(Opcode::Gt)
    } else if num == OPCODE_JMP {
        Ok(Opcode::Jmp)
    } else if num == OPCODE_JT {
        Ok(Opcode::Jt)
    } else if num == OPCODE_JF {
        Ok(Opcode::Jf)
    } else if num == OPCODE_ADD {
        Ok(Opcode::Add)
    } else if num == OPCODE_MULT {
        Ok(Opcode::Mult)
    } else if num == OPCODE_MOD {
        Ok(Opcode::Mod)
    } else if num == OPCODE_AND {
        Ok(Opcode::And)
    } else if num == OPCODE_OR {
        Ok(Opcode::Or)
    } else if num == OPCODE_NOT {
        Ok(Opcode::Not)
    } else if num == OPCODE_RMEM {
        Ok(Opcode::Rmem)
    } else if num == OPCODE_WMEM {
        Ok(Opcode::Wmem)
    } else if num == OPCODE_CAL {
        Ok(Opcode::Call)
    } else if num == OPCODE_RET {
        Ok(Opcode::Ret)
    } else if num == OPCODE_OUT {
        Ok(Opcode::Out)
    } else if num == OPCODE_IN {
        Ok(Opcode::In)
    } else if num == OPCODE_NOOP {
        Ok(Opcode::Noop)
    } else {
        Err(VmError::UnknownOpcode)
    }
}

impl Opcode {
    /// Decode a single word into the instruction it names. Decoding inspects
    /// the word alone and has no side effects; a word outside 0..=21 is
    /// rejected with UnknownOpcode.
    pub fn parse(num: u16) -> (r: Result<Opcode, VmError>)
        ensures
            r == decode_spec(num),
    {
        if num == OPCODE_HALT {
            Ok(Opcode::Halt)
        } else if num == OPCODE_SET {
            Ok(Opcode::SetReg)
        } else if num == OPCODE_PUSH {
            Ok(Opcode::Push)
        } else if num == OPCODE_POP {
            Ok(Opcode::Pop)
        } else if num == OPCODE_EQ {
            Ok(Opcode::Eq)
        } else if num == OPCODE_GT {
            Ok(Opcode::Gt)
        } else if num == OPCODE_JMP {
            Ok(Opcode::Jmp)
        } else if num == OPCODE_JT {
            Ok(Opcode::Jt)
        } else if num == OPCODE_JF {
            Ok(Opcode::Jf)
        } else if num == OPCODE_ADD {
            Ok(Opcode::Add)
        } else if num == OPCODE_MULT {
            Ok(Opcode::Mult)
        } else if num == OPCODE_MOD {
            Ok(Opcode::Mod)
        } else if num == OPCODE_AND {
            Ok(Opcode::And)
        } else if num == OPCODE_OR {
            Ok(Opcode::Or)
        } else if num == OPCODE_NOT {
            Ok(Opcode::Not)
        } else if num == OPCODE_RMEM {
            Ok(Opcode::Rmem)
        } else if num == OPCODE_WMEM {
            Ok(Opcode::Wmem)
        } else if num == OPCODE_CAL {
            Ok(Opcode::Call)
        } else if num == OPCODE_RET {
            Ok(Opcode::Ret)
        } else if num == OPCODE_OUT {
            Ok(Opcode::Out)
        } else if num == OPCODE_IN {
            Ok(Opcode::In)
        } else if num == OPCODE_NOOP {
            Ok(Opcode::Noop)
        } else {
            Err(VmError::UnknownOpcode)
        }
    }
}

} // verus!
