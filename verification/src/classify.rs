//! Classification: from the opcode and function-code fields of a word to
//! operation tags.
//!
//! The opcode and the function code are classified independently. A code
//! that no table lists is an error: it is never mapped to a default.

use vstd::prelude::*;
use crate::fields::{function_code, function_code_of, opcode, opcode_of};
use crate::instructions::{DecodeError, IType, JType, RType};

verus! {

/// The register operation that the function code of `word` stands for, or
/// [`DecodeError::UnknownFunction`] if it stands for none.
pub open spec fn rtype_of(word: u32) -> Result<RType, DecodeError> {
    match RType::from_code(function_code_of(word)) {
        Some(operation) => Ok(operation),
        None => Err(DecodeError::UnknownFunction),
    }
}

/// The jump operation that the opcode of `word` stands for, or
/// [`DecodeError::UnknownOpcode`] if it is not a jump opcode.
pub open spec fn jtype_of(word: u32) -> Result<JType, DecodeError> {
    match JType::from_code(opcode_of(word)) {
        Some(operation) => Ok(operation),
        None => Err(DecodeError::UnknownOpcode),
    }
}

/// The immediate-family tag that the opcode of `word` stands for, or
/// [`DecodeError::UnknownOpcode`] if the family has no such opcode.
pub open spec fn itype_of(word: u32) -> Result<IType, DecodeError> {
    match IType::from_code(opcode_of(word)) {
        Some(tag) => Ok(tag),
        None => Err(DecodeError::UnknownOpcode),
    }
}

/// Classifies the function code of `word`, its low six bits, as a register
/// operation. The other bits of the word play no part.
pub fn to_rtype(word: u32) -> (operation: Result<RType, DecodeError>)
    ensures
        operation == rtype_of(word),
{
    match function_code(word) {
        0x00 => Ok(RType::SLL),
        0x02 => Ok(RType::SRL),
        0x03 => Ok(RType::SRA),
        0x08 => Ok(RType::JR),
        0x10 => Ok(RType::MFHI),
        0x12 => Ok(RType::MFLO),
        0x18 => Ok(RType::MULT),
        0x19 => Ok(RType::MULTU),
        0x1A => Ok(RType::DIV),
        0x1B => Ok(RType::DIVU),
        0x20 => Ok(RType::ADD),
        0x21 => Ok(RType::ADDU),
        0x22 => Ok(RType::SUB),
        0x23 => Ok(RType::SUBU),
        0x24 => Ok(RType::AND),
        0x25 => Ok(RType::OR),
        0x26 => Ok(RType::XOR),
        0x27 => Ok(RType::NOR),
        0x2A => Ok(RType::SLT),
        0x2B => Ok(RType::SLTU),
        _ => Err(DecodeError::UnknownFunction),
    }
}

/// Classifies the opcode of `word`, its high six bits, as a jump operation.
pub fn to_jtype(word: u32) -> (operation: Result<JType, DecodeError>)
    ensures
        operation == jtype_of(word),
{
    match opcode(word) {
        0x02 => Ok(JType::J),
        0x03 => Ok(JType::JAL),
        _ => Err(DecodeError::UnknownOpcode),
    }
}

/// Classifies the opcode of `word`, its high six bits, as an immediate-family
/// tag. Opcode zero yields [`IType::SPECIAL`]; the jump opcodes are not of
/// this family and count as unknown here.
pub fn to_itype(word: u32) -> (tag: Result<IType, DecodeError>)
    ensures
        tag == itype_of(word),
{
    match opcode(word) {
        0x00 => Ok(IType::SPECIAL),
        0x04 => Ok(IType::BEQ),
        0x05 => Ok(IType::BNE),
        0x08 => Ok(IType::ADDI),
        0x09 => Ok(IType::ADDIU),
        0x0A => Ok(IType::SLTI),
        0x0B => Ok(IType::SLTIU),
        0x0C => Ok(IType::ANDI),
        0x0D => Ok(IType::ORI),
        0x0F => Ok(IType::LUI),
        0x23 => Ok(IType::LW),
        0x24 => Ok(IType::LBU),
        0x25 => Ok(IType::LHU),
        0x28 => Ok(IType::SB),
        0x29 => Ok(IType::SH),
        0x2B => Ok(IType::SW),
        _ => Err(DecodeError::UnknownOpcode),
    }
}

} // verus!
