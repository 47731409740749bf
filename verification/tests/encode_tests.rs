use riscv_assembler::assembler::encoder::encode_b_type;
use riscv_assembler::assembler::encoder::encode_i_type;
use riscv_assembler::assembler::encoder::encode_j_type;
use riscv_assembler::assembler::encoder::encode_r_type;
use riscv_assembler::assembler::encoder::encode_s_type;
use riscv_assembler::assembler::encoder::encode_u_type;

#[test]
fn test_encode_r_type() {
    // add
    let opcode = 0b011_0011;
    let rd = 4;
    let funct3 = 0;
    let rs1 = 5;
    let rs2 = 6;
    let funct7 = 0b000_0000;
    let encoded = encode_r_type(opcode, rd, funct3, rs1, rs2, funct7);
    assert_eq!(encoded, 0x00628233);
}

#[test]
fn test_encode_i_type() {
    // addi
    let opcode = 0b001_0011;
    let rd = 4;
    let funct3 = 0b000;
    let rs1 = 5;
    let imm = 0xACE;
    let encoded = encode_i_type(opcode, rd, funct3, rs1, imm);
    assert_eq!(encoded, 0xACE28213);
}

#[test]
fn test_encode_s_type() {
    // sb
    let opcode = 0b010_0011;
    let funct3 = 0b000;
    let rs1 = 5;
    let rs2 = 6;
    let imm = 0x111;
    let encoded = encode_s_type(opcode, funct3, rs1, rs2, imm);
    assert_eq!(encoded, 0x106288A3);
}

#[test]
fn test_encode_b_type() {
    // beq
    let opcode = 0b110_0011;
    let funct3 = 0b000;
    let rs1 = 5;
    let rs2 = 6;
    let imm = 0x123;
    let encoded = encode_b_type(opcode, funct3, rs1, rs2, imm);
    assert_eq!(encoded, 0x12628163);
}

#[test]
fn test_encode_u_type() {
    // lui
    let opcode = 0b011_0111;
    let rd = 4;
    let imm = 0x12345678;
    let encoded = encode_u_type(opcode, rd, imm);
    assert_eq!(encoded, 0x45678237);
}

#[test]
fn test_encode_j_type() {
    // jal
    let opcode = 0b110_1111;
    let mut rd = 4;
    let mut imm = 0x7FFFFFFF;
    let mut encoded = encode_j_type(opcode, rd, imm);
    assert_eq!(encoded, 0xFFFFF26F);

    rd = 5;
    imm = 12;
    encoded = encode_j_type(opcode, rd, imm);
    assert_eq!(encoded, 0xC002EF);
}

#[test]
fn test_encode_negative_immediates() {
    // addi x4, x5, -1: imm masked to its 12-bit two's complement form
    assert_eq!(encode_i_type(0b001_0011, 4, 0, 5, -1), 0xFFF28213);
    // sw with a negative offset
    assert_eq!(encode_s_type(0b010_0011, 0b010, 8, 5, -16), 0xFE542823);
    // beq with a negative displacement
    assert_eq!(encode_b_type(0b110_0011, 0, 5, 6, -4), 0xFE628EE3);
}
