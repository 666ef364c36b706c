//! The decoded representation: operation tags, the three instruction shapes,
//! and the two ways in which a word can fail to decode.
//!
//! Each tag knows the code that stands for it in a word, and each family has a
//! table from codes back to tags. The tables are the model that the
//! classifier is verified against.

use vstd::prelude::*;
use crate::fields::{Immediate, Register, Shamt, Target};

verus! {

/// Register operations, selected by the function code of a word whose opcode
/// is zero.
#[derive(Debug, Clone, Copy, PartialEq, Eq, Structural)]
pub enum RType {
    /// Shift left logical, function code 0x00.
    SLL,
    /// Shift right logical, function code 0x02.
    SRL,
    /// Shift right arithmetic, function code 0x03.
    SRA,
    /// Jump to the address in a register, function code 0x08.
    JR,
    /// Move from the HI register, function code 0x10.
    MFHI,
    /// Move from the LO register, function code 0x12.
    MFLO,
    /// Multiply, function code 0x18.
    MULT,
    /// Multiply unsigned, function code 0x19.
    MULTU,
    /// Divide, function code 0x1A.
    DIV,
    /// Divide unsigned, function code 0x1B.
    DIVU,
    /// Add, function code 0x20.
    ADD,
    /// Add unsigned, function code 0x21.
    ADDU,
    /// Subtract, function code 0x22.
    SUB,
    /// Subtract unsigned, function code 0x23.
    SUBU,
    /// Bitwise and, function code 0x24.
    AND,
    /// Bitwise or, function code 0x25.
    OR,
    /// Bitwise exclusive or, function code 0x26.
    XOR,
    /// Bitwise not-or, function code 0x27.
    NOR,
    /// Set on less than, function code 0x2A.
    SLT,
    /// Set on less than unsigned, function code 0x2B.
    SLTU,
}

/// Jump operations, selected by the opcode alone.
#[derive(Debug, Clone, Copy, PartialEq, Eq, Structural)]
pub enum JType {
    /// Jump, opcode 0x02.
    J,
    /// Jump and link, opcode 0x03.
    JAL,
}

/// Immediate operations, selected by the opcode alone, together with the
/// marker for opcode zero.
#[derive(Debug, Clone, Copy, PartialEq, Eq, Structural)]
pub enum IType {
    /// Opcode 0x00: not an operation of its own, but the trigger that sends
    /// decoding on to the function code.
    SPECIAL,
    /// Branch on equal, opcode 0x04.
    BEQ,
    /// Branch on not equal, opcode 0x05.
    BNE,
    /// Add immediate, opcode 0x08.
    ADDI,
    /// Add immediate unsigned, opcode 0x09.
    ADDIU,
    /// Set on less than immediate, opcode 0x0A.
    SLTI,
    /// Set on less than immediate unsigned, opcode 0x0B.
    SLTIU,
    /// And immediate, opcode 0x0C.
    ANDI,
    /// Or immediate, opcode 0x0D.
    ORI,
    /// Load upper immediate, opcode 0x0F.
    LUI,
    /// Load word, opcode 0x23.
    LW,
    /// Load byte unsigned, opcode 0x24.
    LBU,
    /// Load halfword unsigned, opcode 0x25.
    LHU,
    /// Store byte, opcode 0x28.
    SB,
    /// Store halfword, opcode 0x29.
    SH,
    /// Store word, opcode 0x2B.
    SW,
}

/// A decoded instruction, in one of three shapes.
#[derive(Debug, Clone, Copy, PartialEq, Eq, Structural)]
pub enum Instruction {
    /// Register operation: the opcode marker (always [`IType::SPECIAL`]),
    /// source, target and destination registers, shift amount, operation.
    RType(IType, Register, Register, Register, Shamt, RType),
    /// Jump: operation and target payload.
    JType(JType, Target),
    /// Immediate operation: operation (never [`IType::SPECIAL`]), source and
    /// target registers, sign-extended immediate.
    IType(IType, Register, Register, Immediate),
}

/// Why a word does not decode.
#[derive(Debug, Clone, Copy, PartialEq, Eq, Structural)]
pub enum DecodeError {
    /// The opcode is none of the recognized values.
    UnknownOpcode,
    /// The opcode is zero, and the function code is none of the recognized
    /// values.
    UnknownFunction,
}

impl RType {
    /// The function code that stands for this operation.
    pub open spec fn code(self) -> int {
        match self {
            RType::SLL => 0x00,
            RType::SRL => 0x02,
            RType::SRA => 0x03,
            RType::JR => 0x08,
            RType::MFHI => 0x10,
            RType::MFLO => 0x12,
            RType::MULT => 0x18,
            RType::MULTU => 0x19,
            RType::DIV => 0x1A,
            RType::DIVU => 0x1B,
            RType::ADD => 0x20,
            RType::ADDU => 0x21,
            RType::SUB => 0x22,
            RType::SUBU => 0x23,
            RType::AND => 0x24,
            RType::OR => 0x25,
            RType::XOR => 0x26,
            RType::NOR => 0x27,
            RType::SLT => 0x2A,
            RType::SLTU => 0x2B,
        }
    }

    /// The operation that function code `code` stands for, if any.
    pub open spec fn from_code(code: int) -> Option<RType> {
        if code == 0x00 {
            Some(RType::SLL)
        } else if code == 0x02 {
            Some(RType::SRL)
        } else if code == 0x03 {
            Some(RType::SRA)
        } else if code == 0x08 {
            Some(RType::JR)
        } else if code == 0x10 {
            Some(RType::MFHI)
        } else if code == 0x12 {
            Some(RType::MFLO)
        } else if code == 0x18 {
            Some(RType::MULT)
        } else if code == 0x19 {
            Some(RType::MULTU)
        } else if code == 0x1A {
            Some(RType::DIV)
        } else if code == 0x1B {
            Some(RType::DIVU)
        } else if code == 0x20 {
            Some(RType::ADD)
        } else if code == 0x21 {
            Some(RType::ADDU)
        } else if code == 0x22 {
            Some(RType::SUB)
        } else if code == 0x23 {
            Some(RType::SUBU)
        } else if code == 0x24 {
            Some(RType::AND)
        } else if code == 0x25 {
            Some(RType::OR)
        } else if code == 0x26 {
            Some(RType::XOR)
        } else if code == 0x27 {
            Some(RType::NOR)
        } else if code == 0x2A {
            Some(RType::SLT)
        } else if code == 0x2B {
            Some(RType::SLTU)
        } else {
            None
        }
    }

    /// The table and the codes agree: a function code is recognized as an
    /// operation exactly when it is that operation's code, so no two codes
    /// share an operation and no operation lacks a code.
    pub proof fn lemma_from_code_inverts_code(code: int, tag: RType)
        ensures
            RType::from_code(code) == Some(tag) <==> tag.code() == code,
            RType::from_code(code) is None <==> forall|t: RType| t.code() != code,
    {
        if RType::from_code(code) is Some {
            assert(RType::from_code(code).unwrap().code() == code);
        }
    }
}

impl JType {
    /// The opcode that stands for this operation.
    pub open spec fn code(self) -> int {
        match self {
            JType::J => 0x02,
            JType::JAL => 0x03,
        }
    }

    /// The jump operation that opcode `code` stands for, if any.
    pub open spec fn from_code(code: int) -> Option<JType> {
        if code == 0x02 {
            Some(JType::J)
        } else if code == 0x03 {
            Some(JType::JAL)
        } else {
            None
        }
    }

    /// The table and the codes agree: an opcode is recognized as a jump
    /// exactly when it is that jump's code.
    pub proof fn lemma_from_code_inverts_code(code: int, tag: JType)
        ensures
            JType::from_code(code) == Some(tag) <==> tag.code() == code,
            JType::from_code(code) is None <==> forall|t: JType| t.code() != code,
    {
        if JType::from_code(code) is Some {
            assert(JType::from_code(code).unwrap().code() == code);
        }
    }
}

impl IType {
    /// The opcode that stands for this tag.
    pub open spec fn code(self) -> int {
        match self {
            IType::SPECIAL => 0x00,
            IType::BEQ => 0x04,
            IType::BNE => 0x05,
            IType::ADDI => 0x08,
            IType::ADDIU => 0x09,
            IType::SLTI => 0x0A,
            IType::SLTIU => 0x0B,
            IType::ANDI => 0x0C,
            IType::ORI => 0x0D,
            IType::LUI => 0x0F,
            IType::LW => 0x23,
            IType::LBU => 0x24,
            IType::LHU => 0x25,
            IType::SB => 0x28,
            IType::SH => 0x29,
            IType::SW => 0x2B,
        }
    }

    /// The tag that opcode `code` stands for, if any. The jump opcodes have
    /// none here: they belong to [`JType`].
    pub open spec fn from_code(code: int) -> Option<IType> {
        if code == 0x00 {
            Some(IType::SPECIAL)
        } else if code == 0x04 {
            Some(IType::BEQ)
        } else if code == 0x05 {
            Some(IType::BNE)
        } else if code == 0x08 {
            Some(IType::ADDI)
        } else if code == 0x09 {
            Some(IType::ADDIU)
        } else if code == 0x0A {
            Some(IType::SLTI)
        } else if code == 0x0B {
            Some(IType::SLTIU)
        } else if code == 0x0C {
            Some(IType::ANDI)
        } else if code == 0x0D {
            Some(IType::ORI)
        } else if code == 0x0F {
            Some(IType::LUI)
        } else if code == 0x23 {
            Some(IType::LW)
        } else if code == 0x24 {
            Some(IType::LBU)
        } else if code == 0x25 {
            Some(IType::LHU)
        } else if code == 0x28 {
            Some(IType::SB)
        } else if code == 0x29 {
            Some(IType::SH)
        } else if code == 0x2B {
            Some(IType::SW)
        } else {
            None
        }
    }

    /// The table and the codes agree: an opcode is recognized as a tag
    /// exactly when it is that tag's code.
    pub proof fn lemma_from_code_inverts_code(code: int, tag: IType)
        ensures
            IType::from_code(code) == Some(tag) <==> tag.code() == code,
            IType::from_code(code) is None <==> forall|t: IType| t.code() != code,
    {
        if IType::from_code(code) is Some {
            assert(IType::from_code(code).unwrap().code() == code);
        }
    }

    /// No opcode is both a jump and an immediate-family tag.
    pub proof fn lemma_families_are_disjoint(code: int)
        ensures
            !(JType::from_code(code) is Some && IType::from_code(code) is Some),
    {
    }
}

impl Instruction {
    /// The shape constraints that every decoded instruction meets: register
    /// indices and shift amounts fit in five bits, a jump target fits in
    /// twenty-six, a register operation carries the opcode-zero marker and an
    /// immediate operation never does.
    pub open spec fn well_formed(self) -> bool {
        match self {
            Instruction::RType(marker, rs, rt, rd, shamt, _) => {
                &&& marker == IType::SPECIAL
                &&& rs < 32
                &&& rt < 32
                &&& rd < 32
                &&& shamt < 32
            },
            Instruction::JType(_, target) => 0 <= target < 0x400_0000,
            Instruction::IType(operation, rs, rt, _) => {
                &&& operation != IType::SPECIAL
                &&& rs < 32
                &&& rt < 32
            },
        }
    }
}

} // verus!
