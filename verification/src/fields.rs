//! Field extraction: fixed-position slices of a 32-bit instruction word.
//!
//! Bit 31 is the most significant bit of a word. Each field is modelled as a
//! mathematical integer, defined by division and remainder, so that contracts
//! built on the fields can be discharged by plain arithmetic.
//! [`lemma_fields_are_bit_slices`] ties that model to the shifts and masks
//! that name the same bits.

use vstd::prelude::*;

verus! {

/// Index into the register file: five bits, 0 to 31.
pub type Register = u8;

/// Shift amount: five bits, 0 to 31.
pub type Shamt = u8;

/// Jump target payload: twenty-six bits, zero-extended.
pub type Target = i32;

/// Immediate operand: sixteen bits, sign-extended.
pub type Immediate = i16;

/// Bits 31 to 26 of `word`: the opcode, 0 to 63.
pub open spec fn opcode_of(word: u32) -> int {
    word as int / 0x400_0000
}

/// Bits 25 to 21 of `word`: the source register, 0 to 31.
pub open spec fn source_register_of(word: u32) -> int {
    (word as int / 0x20_0000) % 32
}

/// Bits 20 to 16 of `word`: the target register, 0 to 31.
pub open spec fn target_register_of(word: u32) -> int {
    (word as int / 0x1_0000) % 32
}

/// Bits 15 to 11 of `word`: the destination register, 0 to 31.
pub open spec fn destination_register_of(word: u32) -> int {
    (word as int / 0x800) % 32
}

/// Bits 10 to 6 of `word`: the shift amount, 0 to 31.
pub open spec fn shift_amount_of(word: u32) -> int {
    (word as int / 0x40) % 32
}

/// Bits 5 to 0 of `word`: the function code, 0 to 63.
pub open spec fn function_code_of(word: u32) -> int {
    word as int % 64
}

/// Bits 15 to 0 of `word` read as an unsigned number, 0 to 65535.
pub open spec fn immediate_bits_of(word: u32) -> int {
    word as int % 0x1_0000
}

/// Whether bit 15 of `word`, the sign bit of the immediate field, is set.
pub open spec fn immediate_sign_bit_of(word: u32) -> bool {
    (word as int / 0x8000) % 2 == 1
}

/// Bits 15 to 0 of `word` read as a two's-complement number: the
/// sign-extended immediate, -32768 to 32767.
pub open spec fn immediate_of(word: u32) -> int {
    if immediate_bits_of(word) < 0x8000 {
        immediate_bits_of(word)
    } else {
        immediate_bits_of(word) - 0x1_0000
    }
}

/// Bits 25 to 0 of `word`: the jump target payload, zero-extended.
pub open spec fn target_address_of(word: u32) -> int {
    word as int % 0x400_0000
}

/// Each field, as a number, is the slice of the word that shifting and
/// masking cut out at the field's bit positions.
pub proof fn lemma_fields_are_bit_slices(word: u32)
    ensures
        opcode_of(word) == word >> 26,
        source_register_of(word) == (word >> 21) & 0x1f,
        target_register_of(word) == (word >> 16) & 0x1f,
        destination_register_of(word) == (word >> 11) & 0x1f,
        shift_amount_of(word) == (word >> 6) & 0x1f,
        function_code_of(word) == word & 0x3f,
        immediate_bits_of(word) == word & 0xffff,
        immediate_sign_bit_of(word) <==> word & 0x8000 != 0,
        target_address_of(word) == word & 0x3ff_ffff,
{
    assert(word >> 26 == word / 0x400_0000) by (bit_vector);
    assert((word >> 21) & 0x1f == (word / 0x20_0000) % 32) by (bit_vector);
    assert((word >> 16) & 0x1f == (word / 0x1_0000) % 32) by (bit_vector);
    assert((word >> 11) & 0x1f == (word / 0x800) % 32) by (bit_vector);
    assert((word >> 6) & 0x1f == (word / 0x40) % 32) by (bit_vector);
    assert(word & 0x3f == word % 64) by (bit_vector);
    assert(word & 0xffff == word % 0x1_0000) by (bit_vector);
    assert(word & 0x8000 != 0 <==> (word / 0x8000) % 2 == 1) by (bit_vector);
    assert(word & 0x3ff_ffff == word % 0x400_0000) by (bit_vector);
}

/// Extracts the opcode: bits 31 to 26.
pub fn opcode(word: u32) -> (field: u32)
    ensures
        field == opcode_of(word),
        field < 64,
{
    proof {
        lemma_fields_are_bit_slices(word);
    }
    word >> 26
}

/// Extracts the source register: bits 25 to 21.
pub fn source_register(word: u32) -> (field: Register)
    ensures
        field == source_register_of(word),
        field < 32,
{
    proof {
        lemma_fields_are_bit_slices(word);
    }
    ((word >> 21) & 0x1f) as u8
}

/// Extracts the target register: bits 20 to 16.
pub fn target_register(word: u32) -> (field: Register)
    ensures
        field == target_register_of(word),
        field < 32,
{
    proof {
        lemma_fields_are_bit_slices(word);
    }
    ((word >> 16) & 0x1f) as u8
}

/// Extracts the destination register: bits 15 to 11.
pub fn destination_register(word: u32) -> (field: Register)
    ensures
        field == destination_register_of(word),
        field < 32,
{
    proof {
        lemma_fields_are_bit_slices(word);
    }
    ((word >> 11) & 0x1f) as u8
}

/// Extracts the shift amount: bits 10 to 6.
pub fn shift_amount(word: u32) -> (field: Shamt)
    ensures
        field == shift_amount_of(word),
        field < 32,
{
    proof {
        lemma_fields_are_bit_slices(word);
    }
    ((word >> 6) & 0x1f) as u8
}

/// Extracts the function code: bits 5 to 0.
pub fn function_code(word: u32) -> (field: u32)
    ensures
        field == function_code_of(word),
        field < 64,
{
    proof {
        lemma_fields_are_bit_slices(word);
    }
    word & 0x3f
}

/// Extracts the immediate: bits 15 to 0, sign-extended.
///
/// The result is negative exactly when bit 15 of `word` is set; otherwise it
/// is the unsigned value of the sixteen bits.
pub fn immediate(word: u32) -> (field: Immediate)
    ensures
        field == immediate_of(word),
        immediate_sign_bit_of(word) ==> field < 0,
        !immediate_sign_bit_of(word) ==> field == immediate_bits_of(word),
{
    let bits: u32 = word & 0xffff;
    proof {
        lemma_fields_are_bit_slices(word);
        assert(bits < 0x8000 ==> bits as i16 == bits) by (bit_vector);
        assert(0x8000 <= bits < 0x1_0000 ==> bits as i16 == bits - 0x1_0000) by (bit_vector);
    }
    #[verifier::truncate]
    (bits as i16)
}

/// Extracts the jump target payload: bits 25 to 0, zero-extended.
pub fn target_address(word: u32) -> (field: Target)
    ensures
        field == target_address_of(word),
        0 <= field < 0x400_0000,
{
    proof {
        lemma_fields_are_bit_slices(word);
    }
    (word & 0x3ff_ffff) as i32
}

} // verus!
