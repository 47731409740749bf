use riscv_assembler::assembler::error::AssemblerError;
use riscv_assembler::assembler::instructions::InstructionFormat;
use riscv_assembler::assembler::instructions::InstructionType;
use riscv_assembler::assembler::parser::Parser;
use riscv_assembler::assembler::parser::parse_csr;
use riscv_assembler::assembler::parser::parse_immediate;
use riscv_assembler::assembler::parser::parse_offset;
use riscv_assembler::assembler::parser::parse_register;
use riscv_assembler::assembler::symbols::SymbolTable;

#[test]
fn test_parse_immediate() {
    // Valid hexadecimal
    assert_eq!(parse_immediate("0x0"), Ok(0));
    assert_eq!(parse_immediate("0xACE"), Ok(0xACE));
    assert_eq!(parse_immediate("-0xF"), Ok(-15));
    assert_eq!(parse_immediate("0xFFFFFFFF"), Ok(-1));

    // Valid binary
    assert_eq!(parse_immediate("0b0"), Ok(0));
    assert_eq!(parse_immediate("0b1100"), Ok(12));
    assert_eq!(parse_immediate("-0b0100_0000"), Ok(-64));

    // Valid octal
    assert_eq!(parse_immediate("0o0"), Ok(0));
    assert_eq!(parse_immediate("0o123"), Ok(83));
    assert_eq!(parse_immediate("-0o1000"), Ok(-512));

    // Valid decimal
    assert_eq!(parse_immediate("0"), Ok(0));
    assert_eq!(parse_immediate("64"), Ok(64));
    assert_eq!(parse_immediate("-64"), Ok(-64));
}

#[test]
fn test_parse_offset() {
    assert_eq!(parse_offset("64(x4)"), Ok((64, 4)));
    assert_eq!(parse_offset("-16(x8)"), Ok((-16, 8)));

    // Invalid offsets
    assert!(parse_offset("64(x4").is_err());
    assert!(parse_offset("64x4)").is_err());
}

#[test]
fn test_parse_r_type() {
    let parser = Parser::new();
    let add = InstructionFormat {
        fmt: InstructionType::R,
        opcode: 0b011_0011,
        funct3: Some(0),
        funct7: Some(0),
    };

    assert_eq!(
        parser.parse_r_type(&add, &["x4", "x5", "x6"]),
        Ok(0b0000_0000_0110_0010_1000_0010_0011_0011)
    );
}

#[test]
fn test_parse_i_type() {
    let parser = Parser::new();
    let addi = InstructionFormat {
        fmt: InstructionType::I,
        opcode: 0b001_0011,
        funct3: Some(0),
        funct7: None,
    };

    assert_eq!(
        parser.parse_i_type(&addi, &["x4", "x5", "16"]),
        Ok(0b0000_0001_0000_0010_1000_0010_0001_0011)
    );
}

#[test]
fn test_parse_s_type() {
    let parser = Parser::new();
    let lb = InstructionFormat {
        fmt: InstructionType::S,
        opcode: 0b010_0011,
        funct3: Some(0),
        funct7: None,
    };

    assert_eq!(
        parser.parse_s_type(&lb, &["x6", "0x111(x5)"]),
        Ok(0b0001_0000_0110_0010_1000_1000_1010_0011)
    )
}

#[test]
fn test_parse_b_type() {
    let parser = Parser::new();
    let beq = InstructionFormat {
        fmt: InstructionType::B,
        opcode: 0b110_0011,
        funct3: Some(0),
        funct7: None,
    };
    let symbols = SymbolTable::new();

    assert_eq!(
        parser.parse_b_type(&beq, &["x5", "x6", "0x123"], 0, &symbols),
        Ok(0b0001_0010_0110_0010_1000_0001_0110_0011)
    );
}

#[test]
fn test_parse_u_type() {
    let parser = Parser::new();
    let lui = InstructionFormat {
        fmt: InstructionType::U,
        opcode: 0b011_0111,
        funct3: None,
        funct7: None,
    };
    let symbols = SymbolTable::new();

    assert_eq!(
        parser.parse_u_type(&lui, &["x4", "0x12345678"], &symbols),
        Ok(0x45678237)
    )
}

#[test]
fn test_parse_j_type() {
    let parser = Parser::new();
    let jal = InstructionFormat {
        fmt: InstructionType::J,
        opcode: 0b110_1111,
        funct3: None,
        funct7: None,
    };
    let symbols = SymbolTable::new();

    assert_eq!(
        parser.parse_j_type(&jal, &["x4", "0x7FFFFFFF"], 0, &symbols),
        Ok(0b1111_1111_1111_1111_1111_0010_0110_1111)
    )
}

#[test]
fn test_regular_names() {
    let mut reg_name = "x0";
    let mut reg_num = parse_register(reg_name).unwrap();
    assert_eq!(reg_num, 0);
    reg_name = "x1";
    reg_num = parse_register(reg_name).unwrap();
    assert_eq!(reg_num, 1);
    reg_name = "x2";
    reg_num = parse_register(reg_name).unwrap();
    assert_eq!(reg_num, 2);
    reg_name = "x3";
    reg_num = parse_register(reg_name).unwrap();
    assert_eq!(reg_num, 3);
    reg_name = "x4";
    reg_num = parse_register(reg_name).unwrap();
    assert_eq!(reg_num, 4);
    reg_name = "x5";
    reg_num = parse_register(reg_name).unwrap();
    assert_eq!(reg_num, 5);
    reg_name = "x6";
    reg_num = parse_register(reg_name).unwrap();
    assert_eq!(reg_num, 6);
    reg_name = "x7";
    reg_num = parse_register(reg_name).unwrap();
    assert_eq!(reg_num, 7);
    reg_name = "x8";
    reg_num = parse_register(reg_name).unwrap();
    assert_eq!(reg_num, 8);
    reg_name = "x9";
    reg_num = parse_register(reg_name).unwrap();
    assert_eq!(reg_num, 9);
    reg_name = "x10";
    reg_num = parse_register(reg_name).unwrap();
    assert_eq!(reg_num, 10);
    reg_name = "x11";
    reg_num = parse_register(reg_name).unwrap();
    assert_eq!(reg_num, 11);
    reg_name = "x12";
    reg_num = parse_register(reg_name).unwrap();
    assert_eq!(reg_num, 12);
    reg_name = "x13";
    reg_num = parse_register(reg_name).unwrap();
    assert_eq!(reg_num, 13);
    reg_name = "x14";
    reg_num = parse_register(reg_name).unwrap();
    assert_eq!(reg_num, 14);
    reg_name = "x15";
    reg_num = parse_register(reg_name).unwrap();
    assert_eq!(reg_num, 15);
    reg_name = "x16";
    reg_num = parse_register(reg_name).unwrap();
    assert_eq!(reg_num, 16);
    reg_name = "x17";
    reg_num = parse_register(reg_name).unwrap();
    assert_eq!(reg_num, 17);
    reg_name = "x18";
    reg_num = parse_register(reg_name).unwrap();
    assert_eq!(reg_num, 18);
    reg_name = "x19";
    reg_num = parse_register(reg_name).unwrap();
    assert_eq!(reg_num, 19);
    reg_name = "x20";
    reg_num = parse_register(reg_name).unwrap();
    assert_eq!(reg_num, 20);
    reg_name = "x21";
    reg_num = parse_register(reg_name).unwrap();
    assert_eq!(reg_num, 21);
    reg_name = "x22";
    reg_num = parse_register(reg_name).unwrap();
    assert_eq!(reg_num, 22);
    reg_name = "x23";
    reg_num = parse_register(reg_name).unwrap();
    assert_eq!(reg_num, 23);
    reg_name = "x24";
    reg_num = parse_register(reg_name).unwrap();
    assert_eq!(reg_num, 24);
    reg_name = "x25";
    reg_num = parse_register(reg_name).unwrap();
    assert_eq!(reg_num, 25);
    reg_name = "x26";
    reg_num = parse_register(reg_name).unwrap();
    assert_eq!(reg_num, 26);
    reg_name = "x27";
    reg_num = parse_register(reg_name).unwrap();
    assert_eq!(reg_num, 27);
    reg_name = "x28";
    reg_num = parse_register(reg_name).unwrap();
    assert_eq!(reg_num, 28);
    reg_name = "x29";
    reg_num = parse_register(reg_name).unwrap();
    assert_eq!(reg_num, 29);
    reg_name = "x30";
    reg_num = parse_register(reg_name).unwrap();
    assert_eq!(reg_num, 30);
    reg_name = "x31";
    reg_num = parse_register(reg_name).unwrap();
    assert_eq!(reg_num, 31);
}

#[test]
fn test_mips_style_names() {
    let mut reg_name = "$0";
    let mut reg_num = parse_register(reg_name).unwrap();
    assert_eq!(reg_num, 0);
    reg_name = "$1";
    reg_num = parse_register(reg_name).unwrap();
    assert_eq!(reg_num, 1);
    reg_name = "$2";
    reg_num = parse_register(reg_name).unwrap();
    assert_eq!(reg_num, 2);
    reg_name = "$3";
    reg_num = parse_register(reg_name).unwrap();
    assert_eq!(reg_num, 3);
    reg_name = "$4";
    reg_num = parse_register(reg_name).unwrap();
    assert_eq!(reg_num, 4);
    reg_name = "$5";
    reg_num = parse_register(reg_name).unwrap();
    assert_eq!(reg_num, 5);
    reg_name = "$6";
    reg_num = parse_register(reg_name).unwrap();
    assert_eq!(reg_num, 6);
    reg_name = "$7";
    reg_num = parse_register(reg_name).unwrap();
    assert_eq!(reg_num, 7);
    reg_name = "$8";
    reg_num = parse_register(reg_name).unwrap();
    assert_eq!(reg_num, 8);
    reg_name = "$9";
    reg_num = parse_register(reg_name).unwrap();
    assert_eq!(reg_num, 9);
    reg_name = "$10";
    reg_num = parse_register(reg_name).unwrap();
    assert_eq!(reg_num, 10);
    reg_name = "$11";
    reg_num = parse_register(reg_name).unwrap();
    assert_eq!(reg_num, 11);
    reg_name = "$12";
    reg_num = parse_register(reg_name).unwrap();
    assert_eq!(reg_num, 12);
    reg_name = "$13";
    reg_num = parse_register(reg_name).unwrap();
    assert_eq!(reg_num, 13);
    reg_name = "$14";
    reg_num = parse_register(reg_name).unwrap();
    assert_eq!(reg_num, 14);
    reg_name = "$15";
    reg_num = parse_register(reg_name).unwrap();
    assert_eq!(reg_num, 15);
    reg_name = "$16";
    reg_num = parse_register(reg_name).unwrap();
    assert_eq!(reg_num, 16);
    reg_name = "$17";
    reg_num = parse_register(reg_name).unwrap();
    assert_eq!(reg_num, 17);
    reg_name = "$18";
    reg_num = parse_register(reg_name).unwrap();
    assert_eq!(reg_num, 18);
    reg_name = "$19";
    reg_num = parse_register(reg_name).unwrap();
    assert_eq!(reg_num, 19);
    reg_name = "$20";
    reg_num = parse_register(reg_name).unwrap();
    assert_eq!(reg_num, 20);
    reg_name = "$21";
    reg_num = parse_register(reg_name).unwrap();
    assert_eq!(reg_num, 21);
    reg_name = "$22";
    reg_num = parse_register(reg_name).unwrap();
    assert_eq!(reg_num, 22);
    reg_name = "$23";
    reg_num = parse_register(reg_name).unwrap();
    assert_eq!(reg_num, 23);
    reg_name = "$24";
    reg_num = parse_register(reg_name).unwrap();
    assert_eq!(reg_num, 24);
    reg_name = "$25";
    reg_num = parse_register(reg_name).unwrap();
    assert_eq!(reg_num, 25);
    reg_name = "$26";
    reg_num = parse_register(reg_name).unwrap();
    assert_eq!(reg_num, 26);
    reg_name = "$27";
    reg_num = parse_register(reg_name).unwrap();
    assert_eq!(reg_num, 27);
    reg_name = "$28";
    reg_num = parse_register(reg_name).unwrap();
    assert_eq!(reg_num, 28);
    reg_name = "$29";
    reg_num = parse_register(reg_name).unwrap();
    assert_eq!(reg_num, 29);
    reg_name = "$30";
    reg_num = parse_register(reg_name).unwrap();
    assert_eq!(reg_num, 30);
    reg_name = "$31";
    reg_num = parse_register(reg_name).unwrap();
    assert_eq!(reg_num, 31);
}

#[test]
fn test_abi_names() {
    let mut reg_name = "zero";
    let mut reg_num = parse_register(reg_name).unwrap();
    assert_eq!(reg_num, 0);
    reg_name = "ra";
    reg_num = parse_register(reg_name).unwrap();
    assert_eq!(reg_num, 1);
    reg_name = "sp";
    reg_num = parse_register(reg_name).unwrap();
    assert_eq!(reg_num, 2);
    reg_name = "gp";
    reg_num = parse_register(reg_name).unwrap();
    assert_eq!(reg_num, 3);
    reg_name = "tp";
    reg_num = parse_register(reg_name).unwrap();
    assert_eq!(reg_num, 4);
    reg_name = "t0";
    reg_num = parse_register(reg_name).unwrap();
    assert_eq!(reg_num, 5);
    reg_name = "t1";
    reg_num = parse_register(reg_name).unwrap();
    assert_eq!(reg_num, 6);
    reg_name = "t2";
    reg_num = parse_register(reg_name).unwrap();
    assert_eq!(reg_num, 7);
    reg_name = "s0";
    reg_num = parse_register(reg_name).unwrap();
    assert_eq!(reg_num, 8);
    reg_name = "s1";
    reg_num = parse_register(reg_name).unwrap();
    assert_eq!(reg_num, 9);
    reg_name = "a0";
    reg_num = parse_register(reg_name).unwrap();
    assert_eq!(reg_num, 10);
    reg_name = "a1";
    reg_num = parse_register(reg_name).unwrap();
    assert_eq!(reg_num, 11);
    reg_name = "a2";
    reg_num = parse_register(reg_name).unwrap();
    assert_eq!(reg_num, 12);
    reg_name = "a3";
    reg_num = parse_register(reg_name).unwrap();
    assert_eq!(reg_num, 13);
    reg_name = "a4";
    reg_num = parse_register(reg_name).unwrap();
    assert_eq!(reg_num, 14);
    reg_name = "a5";
    reg_num = parse_register(reg_name).unwrap();
    assert_eq!(reg_num, 15);
    reg_name = "a6";
    reg_num = parse_register(reg_name).unwrap();
    assert_eq!(reg_num, 16);
    reg_name = "a7";
    reg_num = parse_register(reg_name).unwrap();
    assert_eq!(reg_num, 17);
    reg_name = "s2";
    reg_num = parse_register(reg_name).unwrap();
    assert_eq!(reg_num, 18);
    reg_name = "s3";
    reg_num = parse_register(reg_name).unwrap();
    assert_eq!(reg_num, 19);
    reg_name = "s4";
    reg_num = parse_register(reg_name).unwrap();
    assert_eq!(reg_num, 20);
    reg_name = "s5";
    reg_num = parse_register(reg_name).unwrap();
    assert_eq!(reg_num, 21);
    reg_name = "s6";
    reg_num = parse_register(reg_name).unwrap();
    assert_eq!(reg_num, 22);
    reg_name = "s7";
    reg_num = parse_register(reg_name).unwrap();
    assert_eq!(reg_num, 23);
    reg_name = "s8";
    reg_num = parse_register(reg_name).unwrap();
    assert_eq!(reg_num, 24);
    reg_name = "s9";
    reg_num = parse_register(reg_name).unwrap();
    assert_eq!(reg_num, 25);
    reg_name = "s10";
    reg_num = parse_register(reg_name).unwrap();
    assert_eq!(reg_num, 26);
    reg_name = "s11";
    reg_num = parse_register(reg_name).unwrap();
    assert_eq!(reg_num, 27);
    reg_name = "t3";
    reg_num = parse_register(reg_name).unwrap();
    assert_eq!(reg_num, 28);
    reg_name = "t4";
    reg_num = parse_register(reg_name).unwrap();
    assert_eq!(reg_num, 29);
    reg_name = "t5";
    reg_num = parse_register(reg_name).unwrap();
    assert_eq!(reg_num, 30);
    reg_name = "t6";
    reg_num = parse_register(reg_name).unwrap();
    assert_eq!(reg_num, 31);
}

#[test]
fn test_register_rejects_out_of_range_and_junk() {
    assert!(parse_register("x32").is_err());
    assert!(parse_register("$99").is_err());
    assert!(parse_register("x").is_err());
    assert!(parse_register("q7").is_err());
    assert!(parse_register("").is_err());
    assert!(matches!(parse_register("x32"), Err(AssemblerError::InvalidOperand(_))));
}

#[test]
fn test_register_names_are_case_insensitive() {
    assert_eq!(parse_register("ZERO"), Ok(0));
    assert_eq!(parse_register("Ra"), Ok(1));
    assert_eq!(parse_register("X5"), Ok(5));
    assert_eq!(parse_register("FP"), Ok(8));
}

#[test]
fn test_immediate_rejects_malformed_literals() {
    assert!(matches!(parse_immediate(""), Err(AssemblerError::InvalidOperand(_))));
    assert!(parse_immediate("0x").is_err());
    assert!(parse_immediate("12ab").is_err());
    assert!(parse_immediate("--5").is_err());
    assert!(parse_immediate("_").is_err());
    // decimal magnitudes are capped at i32::MAX
    assert_eq!(parse_immediate("2147483647"), Ok(2147483647));
    assert!(parse_immediate("2147483648").is_err());
    // hexadecimal wraps by two's complement instead
    assert_eq!(parse_immediate("0x80000000"), Ok(i32::MIN));
}

#[test]
fn test_offset_rejects_register_zero_base() {
    // register 0 is hardwired to the constant zero
    assert!(matches!(parse_offset("8(x0)"), Err(AssemblerError::InvalidOperand(_))));
    assert!(matches!(parse_offset("8(zero)"), Err(AssemblerError::InvalidOperand(_))));
    assert_eq!(parse_offset("8(sp)"), Ok((8, 2)));
}

#[test]
fn test_parse_csr_names_and_numbers() {
    assert_eq!(parse_csr("mstatus"), Ok(0x300));
    assert_eq!(parse_csr("mepc"), Ok(0x341));
    assert_eq!(parse_csr("0x300"), Ok(0x300));
    assert_eq!(parse_csr("42"), Ok(42));
    assert!(matches!(parse_csr("not_a_csr"), Err(AssemblerError::InvalidOperand(_))));
}
