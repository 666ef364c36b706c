//! Instruction assembly: from a word to the instruction it encodes.
//!
//! [`decoded`] is the model of the decoder: a total function from words to
//! either an instruction or an error. [`ToInstruction::to_instruction`] and
//! [`decode`] compute it. The lemmas that follow state what the model yields
//! for each class of word.

use vstd::prelude::*;
use crate::classify::{itype_of, jtype_of, rtype_of, to_itype, to_jtype, to_rtype};
use crate::fields::{
    destination_register, destination_register_of, function_code_of, immediate,
    immediate_bits_of, immediate_of, immediate_sign_bit_of, lemma_fields_are_bit_slices, opcode,
    opcode_of, shift_amount, shift_amount_of, source_register, source_register_of,
    target_address, target_address_of, target_register, target_register_of, Immediate, Register,
    Shamt, Target,
};
use crate::instructions::{DecodeError, IType, Instruction, JType, RType};

verus! {

/// Whether `code` is an opcode that the decoder recognizes: zero, a jump, or
/// an immediate operation.
pub open spec fn is_recognized_opcode(code: int) -> bool {
    JType::from_code(code) is Some || IType::from_code(code) is Some
}

/// Whether `code` is a function code that the decoder recognizes.
pub open spec fn is_recognized_function(code: int) -> bool {
    RType::from_code(code) is Some
}

/// The instruction that `word` encodes, or the reason it encodes none.
///
/// Opcode zero selects the register shape, and the function code selects the
/// operation. A jump opcode selects the jump shape. Any other opcode selects
/// the immediate shape if the immediate family lists it.
pub open spec fn decoded(word: u32) -> Result<Instruction, DecodeError> {
    if opcode_of(word) == 0 {
        match rtype_of(word) {
            Ok(operation) => Ok(
                Instruction::RType(
                    IType::SPECIAL,
                    source_register_of(word) as Register,
                    target_register_of(word) as Register,
                    destination_register_of(word) as Register,
                    shift_amount_of(word) as Shamt,
                    operation,
                ),
            ),
            Err(error) => Err(error),
        }
    } else if let Ok(operation) = jtype_of(word) {
        Ok(Instruction::JType(operation, target_address_of(word) as Target))
    } else {
        match itype_of(word) {
            Ok(operation) => Ok(
                Instruction::IType(
                    operation,
                    source_register_of(word) as Register,
                    target_register_of(word) as Register,
                    immediate_of(word) as Immediate,
                ),
            ),
            Err(error) => Err(error),
        }
    }
}

/// Values that encode an instruction.
pub trait ToInstruction {
    /// The instruction that this value encodes, or the reason it encodes
    /// none.
    spec fn instruction(&self) -> Result<Instruction, DecodeError>;

    /// Decodes this value.
    fn to_instruction(&self) -> (result: Result<Instruction, DecodeError>)
        ensures
            result == self.instruction(),
    ;
}

impl ToInstruction for u32 {
    open spec fn instruction(&self) -> Result<Instruction, DecodeError> {
        decoded(*self)
    }

    /// Decodes a machine word. The register shape is tried first, then the
    /// jump shape, then the immediate shape.
    fn to_instruction(&self) -> (result: Result<Instruction, DecodeError>)
        ensures
            result matches Ok(instruction) ==> instruction.well_formed(),
    {
        let word: u32 = *self;
        if opcode(word) == 0 {
            let rs: Register = source_register(word);
            let rt: Register = target_register(word);
            let rd: Register = destination_register(word);
            let shamt: Shamt = shift_amount(word);
            match to_rtype(word) {
                Ok(operation) => Ok(Instruction::RType(IType::SPECIAL, rs, rt, rd, shamt, operation)),
                Err(error) => Err(error),
            }
        } else {
            match to_jtype(word) {
                Ok(operation) => {
                    let target: Target = target_address(word);
                    Ok(Instruction::JType(operation, target))
                },
                Err(_) => {
                    let rs: Register = source_register(word);
                    let rt: Register = target_register(word);
                    let value: Immediate = immediate(word);
                    match to_itype(word) {
                        Ok(operation) => Ok(Instruction::IType(operation, rs, rt, value)),
                        Err(error) => Err(error),
                    }
                },
            }
        }
    }
}

/// Decodes a machine word into the instruction it encodes.
///
/// Fails with [`DecodeError::UnknownFunction`] when the opcode is zero and the
/// function code is not recognized, and with [`DecodeError::UnknownOpcode`]
/// when the opcode is not recognized. Every other word decodes.
pub fn decode(word: u32) -> (result: Result<Instruction, DecodeError>)
    ensures
        result == decoded(word),
        result matches Ok(instruction) ==> instruction.well_formed(),
        result == Err::<Instruction, DecodeError>(DecodeError::UnknownFunction) <==> opcode_of(word) == 0
            && !is_recognized_function(function_code_of(word)),
        result == Err::<Instruction, DecodeError>(DecodeError::UnknownOpcode) <==> !is_recognized_opcode(
            opcode_of(word),
        ),
{
    word.to_instruction()
}

/// Every word has exactly one outcome, and the opcode and function code
/// alone decide which: a well-formed instruction, an unknown function, or an
/// unknown opcode.
pub proof fn lemma_decoded_outcomes(word: u32)
    ensures
        decoded(word) matches Ok(instruction) ==> instruction.well_formed(),
        opcode_of(word) == 0 ==> (decoded(word) is Ok <==> is_recognized_function(
            function_code_of(word),
        )),
        opcode_of(word) != 0 ==> (decoded(word) is Ok <==> is_recognized_opcode(opcode_of(word))),
        decoded(word) == Err::<Instruction, DecodeError>(DecodeError::UnknownFunction) <==> opcode_of(word) == 0
            && !is_recognized_function(function_code_of(word)),
        decoded(word) == Err::<Instruction, DecodeError>(DecodeError::UnknownOpcode) <==> !is_recognized_opcode(
            opcode_of(word),
        ),
{
}

/// A word whose opcode is a jump opcode decodes to the jump shape. Its
/// operation is the one the opcode stands for, and its target is bits 25 to 0
/// of the word, zero-extended.
pub proof fn lemma_jump_word(word: u32)
    requires
        JType::from_code(opcode_of(word)) is Some,
    ensures
        decoded(word) matches Ok(Instruction::JType(operation, target)) && operation.code()
            == opcode_of(word) && target == target_address_of(word) && target == word & 0x3ff_ffff,
{
    lemma_fields_are_bit_slices(word);
}

/// A word whose opcode is zero and whose function code is recognized decodes
/// to the register shape. Its operation is the one the function code stands
/// for, and its registers and shift amount are bits 25 to 21, 20 to 16, 15 to
/// 11 and 10 to 6 of the word.
pub proof fn lemma_register_word(word: u32)
    requires
        opcode_of(word) == 0,
        is_recognized_function(function_code_of(word)),
    ensures
        decoded(word) matches Ok(Instruction::RType(marker, rs, rt, rd, shamt, operation))
            && marker == IType::SPECIAL && operation.code() == function_code_of(word)
            && rs == source_register_of(word) && rs == (word >> 21) & 0x1f
            && rt == target_register_of(word) && rt == (word >> 16) & 0x1f
            && rd == destination_register_of(word) && rd == (word >> 11) & 0x1f
            && shamt == shift_amount_of(word) && shamt == (word >> 6) & 0x1f,
{
    lemma_fields_are_bit_slices(word);
}

/// A word whose opcode is an immediate operation decodes to the immediate
/// shape. Its operation is the one the opcode stands for, its registers are
/// bits 25 to 21 and 20 to 16 of the word, and its immediate is bits 15 to 0
/// read as a two's-complement number.
pub proof fn lemma_immediate_word(word: u32)
    requires
        opcode_of(word) != 0,
        IType::from_code(opcode_of(word)) is Some,
    ensures
        decoded(word) matches Ok(Instruction::IType(operation, rs, rt, value))
            && operation != IType::SPECIAL && operation.code() == opcode_of(word)
            && rs == source_register_of(word) && rs == (word >> 21) & 0x1f
            && rt == target_register_of(word) && rt == (word >> 16) & 0x1f
            && value == immediate_of(word),
{
    lemma_fields_are_bit_slices(word);
}

/// A word whose opcode is zero and whose function code is not recognized
/// fails with [`DecodeError::UnknownFunction`].
pub proof fn lemma_unknown_function(word: u32)
    requires
        opcode_of(word) == 0,
        !is_recognized_function(function_code_of(word)),
    ensures
        decoded(word) == Err::<Instruction, DecodeError>(DecodeError::UnknownFunction),
{
}

/// A word whose opcode is not recognized fails with
/// [`DecodeError::UnknownOpcode`].
pub proof fn lemma_unknown_opcode(word: u32)
    requires
        !is_recognized_opcode(opcode_of(word)),
    ensures
        decoded(word) == Err::<Instruction, DecodeError>(DecodeError::UnknownOpcode),
{
}

/// Sign extension. The immediate of a decoded immediate operation is negative
/// when bit 15 of the word is set. When bit 15 is clear, it is non-negative
/// and equal to bits 15 to 0 of the word.
pub proof fn lemma_immediate_is_sign_extended(word: u32)
    requires
        decoded(word) matches Ok(Instruction::IType(..)),
    ensures
        decoded(word) matches Ok(Instruction::IType(_, _, _, value)) && (immediate_sign_bit_of(word)
            ==> value < 0) && (!immediate_sign_bit_of(word) ==> 0 <= value && value
            == immediate_bits_of(word) && value == word & 0xffff),
        immediate_sign_bit_of(word) <==> word & 0x8000 != 0,
{
    lemma_fields_are_bit_slices(word);
}

/// Decoding is a function of the word alone: any two results that
/// [`decode`] can return for one word are equal.
pub proof fn lemma_decode_is_deterministic(
    word: u32,
    first: Result<Instruction, DecodeError>,
    second: Result<Instruction, DecodeError>,
)
    requires
        first == decoded(word),
        second == decoded(word),
    ensures
        first == second,
{
}

} // verus!
