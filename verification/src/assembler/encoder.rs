//! Pure bit-packing functions, one per instruction format.
//!
//! Each encoder is a total function from decoded fields to a 32-bit word.
//! Immediates are masked to their format's width by two's-complement
//! truncation; register and function fields are packed as given.

use vstd::prelude::*;

verus! {

/// R-format layout: `funct7 | rs2 | rs1 | funct3 | rd | opcode`.
pub open spec fn spec_encode_r_type(
    opcode: u32,
    rd: u32,
    funct3: u32,
    rs1: u32,
    rs2: u32,
    funct7: u32,
) -> u32 {
    (funct7 << 25) | (rs2 << 20) | (rs1 << 15) | (funct3 << 12) | (rd << 7) | opcode
}

/// I-format layout: `imm[11:0] | rs1 | funct3 | rd | opcode`.
pub open spec fn spec_encode_i_type(opcode: u32, rd: u32, funct3: u32, rs1: u32, imm: i32) -> u32 {
    (((imm as u32) & 0xFFF) << 20) | (rs1 << 15) | (funct3 << 12) | (rd << 7) | opcode
}

/// S-format layout: `imm[11:5] | rs2 | rs1 | funct3 | imm[4:0] | opcode`.
pub open spec fn spec_encode_s_type(opcode: u32, funct3: u32, rs1: u32, rs2: u32, imm: i32) -> u32 {
    (((((imm as u32) & 0xFFF) >> 5) & 0x7F) << 25) | (rs2 << 20) | (rs1 << 15) | (funct3 << 12)
        | ((((imm as u32) & 0xFFF) & 0x1F) << 7) | opcode
}

/// B-format layout: `imm[12] | imm[10:5] | rs2 | rs1 | funct3 | imm[4:1] | imm[11] | opcode`.
pub open spec fn spec_encode_b_type(opcode: u32, funct3: u32, rs1: u32, rs2: u32, imm: i32) -> u32 {
    (((((imm as u32) & 0x1FFF) >> 12) & 0x1) << 31) | (((((imm as u32) & 0x1FFF) >> 5) & 0x3F)
        << 25) | (rs2 << 20) | (rs1 << 15) | (funct3 << 12) | (((((imm as u32) & 0x1FFF) >> 1)
        & 0xF) << 8) | (((((imm as u32) & 0x1FFF) >> 11) & 0x1) << 7) | opcode
}

/// U-format layout: `imm[31:12] | rd | opcode`.
///
/// The immediate operand is the 20-bit field value itself: its low 20 bits
/// are shifted up to bits 31:12 here. A label operand therefore lands its
/// raw absolute address, unshifted, in the field.
pub open spec fn spec_encode_u_type(opcode: u32, rd: u32, imm: i32) -> u32 {
    (((imm as u32) & 0xFFFFF) << 12) | (rd << 7) | opcode
}

/// J-format layout: `imm[20] | imm[10:1] | imm[11] | imm[19:12] | rd | opcode`.
pub open spec fn spec_encode_j_type(opcode: u32, rd: u32, imm: i32) -> u32 {
    (((((imm as u32) & 0x1FFFFF) >> 20) & 0x1) << 31) | (((((imm as u32) & 0x1FFFFF) >> 1) & 0x3FF)
        << 21) | (((((imm as u32) & 0x1FFFFF) >> 11) & 0x1) << 20) | (((((imm as u32) & 0x1FFFFF)
        >> 12) & 0xFF) << 12) | (rd << 7) | opcode
}

pub fn encode_r_type(
    opcode: u32,
    rd: u32,
    funct3: u32,
    rs1: u32,
    rs2: u32,
    funct7: u32,
) -> (word: u32)
    ensures
        word == spec_encode_r_type(opcode, rd, funct3, rs1, rs2, funct7),
{
    (funct7 << 25) | (rs2 << 20) | (rs1 << 15) | (funct3 << 12) | (rd << 7) | opcode
}

pub fn encode_i_type(opcode: u32, rd: u32, funct3: u32, rs1: u32, imm: i32) -> (word: u32)
    ensures
        word == spec_encode_i_type(opcode, rd, funct3, rs1, imm),
{
    let imm = (imm as u32) & 0xFFF;
    (imm << 20) | (rs1 << 15) | (funct3 << 12) | (rd << 7) | opcode
}

pub fn encode_s_type(opcode: u32, funct3: u32, rs1: u32, rs2: u32, imm: i32) -> (word: u32)
    ensures
        word == spec_encode_s_type(opcode, funct3, rs1, rs2, imm),
{
    let imm = (imm as u32) & 0xFFF;
    let imm_lower = imm & 0x1F;
    let imm_upper = (imm >> 5) & 0x7F;
    (imm_upper << 25) | (rs2 << 20) | (rs1 << 15) | (funct3 << 12) | (imm_lower << 7) | opcode
}

pub fn encode_b_type(opcode: u32, funct3: u32, rs1: u32, rs2: u32, imm: i32) -> (word: u32)
    ensures
        word == spec_encode_b_type(opcode, funct3, rs1, rs2, imm),
{
    let imm = (imm as u32) & 0x1FFF;
    let imm_11 = (imm >> 11) & 0x1;
    let imm_4_1 = (imm >> 1) & 0xF;
    let imm_10_5 = (imm >> 5) & 0x3F;
    let imm_12 = (imm >> 12) & 0x1;
    (imm_12 << 31) | (imm_10_5 << 25) | (rs2 << 20) | (rs1 << 15) | (funct3 << 12) | (imm_4_1 << 8)
        | (imm_11 << 7) | opcode
}

pub fn encode_u_type(opcode: u32, rd: u32, imm: i32) -> (word: u32)
    ensures
        word == spec_encode_u_type(opcode, rd, imm),
{
    let imm20 = #[verifier::truncate] (imm as u32) & 0xFFFFF;
    let imm = imm20 << 12;
    let rd = rd << 7;
    imm | rd | opcode
}

pub fn encode_j_type(opcode: u32, rd: u32, imm: i32) -> (word: u32)
    ensures
        word == spec_encode_j_type(opcode, rd, imm),
{
    let imm = (imm as u32) & 0x1FFFFF;
    let imm_19_12 = (imm >> 12) & 0xFF;
    let imm_11 = (imm >> 11) & 0x1;
    let imm_10_1 = (imm >> 1) & 0x3FF;
    let imm_20 = (imm >> 20) & 0x1;
    (imm_20 << 31) | (imm_10_1 << 21) | (imm_11 << 20) | (imm_19_12 << 12) | (rd << 7) | opcode
}

} // verus!
