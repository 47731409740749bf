use riscv_assembler::assembler::Assembler;
use riscv_assembler::assembler::error::AssemblerError;
use riscv_assembler::assembler::hexdump::generate_hexdump;
use riscv_assembler::assembler::parser::Parser;
use riscv_assembler::assembler::sections::Section;
use riscv_assembler::assembler::symbols::SymbolTable;

fn lines(src: &[&str]) -> Vec<String> {
    src.iter().map(|s| s.to_string()).collect()
}

#[test]
fn test_parse_line_blank_and_comment_lines() {
    let parser = Parser::new();
    let symbols = SymbolTable::new();
    assert_eq!(parser.parse_line("", 0, &symbols), Ok(vec![]));
    assert_eq!(parser.parse_line("   ", 0, &symbols), Ok(vec![]));
    assert_eq!(parser.parse_line("# just a comment", 0, &symbols), Ok(vec![]));
    assert_eq!(parser.parse_line("label_only:", 0, &symbols), Ok(vec![]));
    assert_eq!(parser.parse_line("label_only:   # note", 0, &symbols), Ok(vec![]));
}

#[test]
fn test_parse_line_base_instructions() {
    let parser = Parser::new();
    let symbols = SymbolTable::new();
    assert_eq!(parser.parse_line("add x4, x5, x6", 0, &symbols), Ok(vec![0x00628233]));
    assert_eq!(parser.parse_line("lw a0, 8(sp)", 0, &symbols), Ok(vec![0x00812503]));
    assert_eq!(parser.parse_line("sw a0, -16(s0)", 0, &symbols), Ok(vec![0xFEA42823]));
    assert_eq!(parser.parse_line("nop", 0, &symbols), Ok(vec![0x00000013]));
    assert_eq!(parser.parse_line("ret", 0, &symbols), Ok(vec![0x00008067]));
    assert_eq!(parser.parse_line("ecall", 0, &symbols), Ok(vec![0x00000073]));
    assert_eq!(parser.parse_line("ebreak", 0, &symbols), Ok(vec![0x00100073]));
}

#[test]
fn test_parse_line_strips_label_and_comment() {
    let parser = Parser::new();
    let symbols = SymbolTable::new();
    assert_eq!(
        parser.parse_line("entry:  add x4, x5, x6  # sum", 0, &symbols),
        Ok(vec![0x00628233])
    );
}

#[test]
fn test_parse_line_expands_wide_li() {
    let parser = Parser::new();
    let symbols = SymbolTable::new();
    // lui a0, 74565 then addi a0, a0, 1656
    assert_eq!(
        parser.parse_line("li a0, 0x12345678", 0, &symbols),
        Ok(vec![0x12345537, 0x67850513])
    );
    // small immediates stay a single addi
    assert_eq!(parser.parse_line("li a0, -5", 0, &symbols), Ok(vec![0xFFB00513]));
}

#[test]
fn test_parse_line_missing_operands() {
    let parser = Parser::new();
    let symbols = SymbolTable::new();
    assert!(matches!(
        parser.parse_line("add", 0, &symbols),
        Err(AssemblerError::ParseError(_))
    ));
}

#[test]
fn test_parse_line_unknown_mnemonic() {
    let parser = Parser::new();
    let symbols = SymbolTable::new();
    assert!(matches!(
        parser.parse_line("frobnicate x1, x2, x3", 0, &symbols),
        Err(AssemblerError::InvalidInstruction(_))
    ));
}

#[test]
fn test_parse_line_undefined_label_is_named() {
    let parser = Parser::new();
    let symbols = SymbolTable::new();
    // branch, jump and absolute-load targets all report the missing label
    assert_eq!(
        parser.parse_line("beq x1, x2, nowhere", 0, &symbols),
        Err(AssemblerError::UndefinedLabel("nowhere".to_string()))
    );
    assert_eq!(
        parser.parse_line("jal ra, nowhere", 0, &symbols),
        Err(AssemblerError::UndefinedLabel("nowhere".to_string()))
    );
    assert_eq!(
        parser.parse_line("lui a0, nowhere", 0, &symbols),
        Err(AssemblerError::UndefinedLabel("nowhere".to_string()))
    );
}

#[test]
fn test_parse_line_rejects_zero_offset_base() {
    let parser = Parser::new();
    let symbols = SymbolTable::new();
    assert!(matches!(
        parser.parse_line("lw a0, 8(x0)", 0, &symbols),
        Err(AssemblerError::InvalidOperand(_))
    ));
}

#[test]
fn test_parse_line_resolves_labels() {
    let parser = Parser::new();
    let mut symbols = SymbolTable::new();
    symbols.insert("end", 0x10);
    // PC-relative branch: 0x10 - 0x8 = 8
    assert_eq!(parser.parse_line("beq x0, x0, end", 0x8, &symbols), Ok(vec![0x00000463]));
    // jal is PC-relative too
    assert_eq!(parser.parse_line("jal ra, end", 0x8, &symbols), Ok(vec![0x008000EF]));
    // a U-type operand takes the label's absolute, unshifted address
    assert_eq!(parser.parse_line("lui a0, end", 0x8, &symbols), Ok(vec![0x00010537]));
}

#[test]
fn test_assemble_forward_branch_over_expansion() {
    // the branch target lies past a two-word li expansion: the address the
    // first pass records for `end` must match what the second pass uses
    let src = lines(&[
        "start:",
        "  li a0, 0x12345678",
        "  beq x0, x0, end",
        "  nop",
        "end: ret",
    ]);
    let mut assembler = Assembler::new();
    let bin = assembler.assemble(&src).unwrap();
    assert_eq!(
        bin,
        vec![
            0x37, 0x55, 0x34, 0x12, // lui a0, 74565
            0x13, 0x05, 0x85, 0x67, // addi a0, a0, 1656
            0x63, 0x04, 0x00, 0x00, // beq x0, x0, +8
            0x13, 0x00, 0x00, 0x00, // nop
            0x67, 0x80, 0x00, 0x00, // ret
        ]
    );
    assert_eq!(
        generate_hexdump(&bin),
        "00000000: 12345537\n00000004: 67850513\n00000008: 00000463\n0000000c: 00000013\n00000010: 00008067\n"
    );
}

#[test]
fn test_assemble_backward_branch() {
    let src = lines(&["loop:", "  nop", "  beq x0, x0, loop"]);
    let mut assembler = Assembler::new();
    let bin = assembler.assemble(&src).unwrap();
    assert_eq!(
        bin,
        vec![
            0x13, 0x00, 0x00, 0x00, // nop
            0xE3, 0x0E, 0x00, 0xFE, // beq x0, x0, -4
        ]
    );
}

#[test]
fn test_assemble_duplicate_label_keeps_last() {
    // a label written twice keeps its last definition
    let src = lines(&["x:", "  nop", "x:", "  nop", "  j x"]);
    let mut assembler = Assembler::new();
    let bin = assembler.assemble(&src).unwrap();
    // jal x0, -4: the jump goes to the second definition at address 4
    assert_eq!(
        bin,
        vec![
            0x13, 0x00, 0x00, 0x00,
            0x13, 0x00, 0x00, 0x00,
            0x6F, 0xF0, 0xDF, 0xFF,
        ]
    );
}

#[test]
fn test_assemble_undefined_label_aborts() {
    let src = lines(&["  nop", "  beq x0, x0, missing"]);
    let mut assembler = Assembler::new();
    assert_eq!(
        assembler.assemble(&src),
        Err(AssemblerError::UndefinedLabel("missing".to_string()))
    );
}

#[test]
fn test_assemble_first_error_wins() {
    let src = lines(&["  bogus x1", "  also_bogus"]);
    let mut assembler = Assembler::new();
    assert!(matches!(
        assembler.assemble(&src),
        Err(AssemblerError::InvalidInstruction(_))
    ));
}

#[test]
fn test_assemble_empty_source() {
    let src = lines(&["", "# only comments", "   ", "lonely:"]);
    let mut assembler = Assembler::new();
    assert_eq!(assembler.assemble(&src), Ok(vec![]));
}

#[test]
fn test_symbol_table_insert_get_clear() {
    let mut symbols = SymbolTable::new();
    assert_eq!(symbols.get("a"), None);
    symbols.insert("a", 0);
    symbols.insert("b", 4);
    assert_eq!(symbols.get("a"), Some(0));
    assert_eq!(symbols.get("b"), Some(4));
    // a second insert of the same name wins
    symbols.insert("a", 8);
    assert_eq!(symbols.get("a"), Some(8));
    symbols.clear();
    assert_eq!(symbols.get("a"), None);
}

#[test]
fn test_error_messages() {
    assert_eq!(
        AssemblerError::UndefinedLabel("foo".to_string()).message(),
        "Invalid Label: foo"
    );
    assert_eq!(
        AssemblerError::IOError("gone".to_string()).message(),
        "IO Error: gone"
    );
    assert_eq!(
        AssemblerError::ParseError("Missing operands".to_string()).message(),
        "Parser Error: Missing operands"
    );
    assert_eq!(
        AssemblerError::InvalidInstruction("frob".to_string()).message(),
        "Invalid Instruction: frob"
    );
    assert_eq!(
        AssemblerError::InvalidOperand("x99".to_string()).message(),
        "Invalid Operand: x99"
    );
}

#[test]
fn test_section_new() {
    let _text = Section::new(".text", 0, 4);
    let _data = Section::new(".data", 0x1000, 8);
}
