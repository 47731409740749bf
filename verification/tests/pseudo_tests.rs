use riscv_assembler::assembler::error::AssemblerError;
use riscv_assembler::assembler::pseudo_instructions::PseudoInstructions;

#[test]
fn test_is_pseudo_instruction() {
    assert!(PseudoInstructions::is_pseudo_instruction("nop"));
    assert!(PseudoInstructions::is_pseudo_instruction("li"));
    assert!(PseudoInstructions::is_pseudo_instruction("sext.w"));
    assert!(PseudoInstructions::is_pseudo_instruction("ret"));
    assert!(!PseudoInstructions::is_pseudo_instruction("add"));
    assert!(!PseudoInstructions::is_pseudo_instruction("jal"));
    assert!(!PseudoInstructions::is_pseudo_instruction(""));
}

#[test]
fn test_expand_li_small_is_single_addi() {
    // an immediate inside [-2048, 2047] needs exactly one instruction
    let recs = PseudoInstructions::expand("li", &["a0", "-5"]).unwrap();
    assert_eq!(recs.len(), 1);
    assert_eq!(recs[0].mnemonic, "addi");
    assert_eq!(recs[0].operands, vec!["a0".to_string(), "x0".to_string(), "-5".to_string()]);

    let recs = PseudoInstructions::expand("li", &["t0", "2047"]).unwrap();
    assert_eq!(recs.len(), 1);
    let recs = PseudoInstructions::expand("li", &["t0", "-2048"]).unwrap();
    assert_eq!(recs.len(), 1);
}

#[test]
fn test_expand_li_wide_splits_and_reconstructs() {
    // 0x12345678 = 74565 * 4096 + 1656
    let recs = PseudoInstructions::expand("li", &["a0", "0x12345678"]).unwrap();
    assert_eq!(recs.len(), 2);
    assert_eq!(recs[0].mnemonic, "lui");
    assert_eq!(recs[0].operands, vec!["a0".to_string(), "74565".to_string()]);
    assert_eq!(recs[1].mnemonic, "addi");
    assert_eq!(
        recs[1].operands,
        vec!["a0".to_string(), "a0".to_string(), "1656".to_string()]
    );
    let upper: i64 = recs[0].operands[1].parse().unwrap();
    let lower: i64 = recs[1].operands[2].parse().unwrap();
    assert_eq!(upper * 4096 + lower, 0x12345678);
}

#[test]
fn test_expand_li_most_negative_value() {
    // the hex form reaches the most negative 32-bit value; its low
    // remainder is zero, so a single lui carries it
    let recs = PseudoInstructions::expand("li", &["a0", "0x80000000"]).unwrap();
    assert_eq!(recs.len(), 1);
    assert_eq!(recs[0].mnemonic, "lui");
    assert_eq!(recs[0].operands, vec!["a0".to_string(), "-524288".to_string()]);
}

#[test]
fn test_expand_li_zero_remainder_is_single_lui() {
    // a low remainder of zero drops the trailing addi
    let recs = PseudoInstructions::expand("li", &["a0", "0x12345000"]).unwrap();
    assert_eq!(recs.len(), 1);
    assert_eq!(recs[0].mnemonic, "lui");
    assert_eq!(recs[0].operands, vec!["a0".to_string(), "74565".to_string()]);
}

#[test]
fn test_expand_li_reconstructs_many_values() {
    for &imm in &[
        0i64, 1, -1, 2047, -2048, 2048, -2049, 4096, -4096, 0x7FFFF7FF, 0x12345678,
        -0x12345678, 0x7FFFFFFF_i64,
    ] {
        let text = imm.to_string();
        let recs = PseudoInstructions::expand("li", &["a0", &text]).unwrap();
        let (upper, lower): (i64, i64) = if recs[0].mnemonic == "addi" {
            (0, recs[0].operands[2].parse().unwrap())
        } else if recs.len() == 2 {
            (
                recs[0].operands[1].parse().unwrap(),
                recs[1].operands[2].parse().unwrap(),
            )
        } else {
            (recs[0].operands[1].parse().unwrap(), 0)
        };
        // reconstruction is exact up to 32-bit wraparound
        assert_eq!(
            (upper * 4096 + lower).rem_euclid(1 << 32),
            imm.rem_euclid(1 << 32),
            "li split failed for {}",
            imm
        );
        assert!((-2048..=2047).contains(&lower));
    }
}

#[test]
fn test_expand_register_rewrites() {
    let recs = PseudoInstructions::expand("mv", &["a0", "a1"]).unwrap();
    assert_eq!(recs[0].mnemonic, "addi");
    assert_eq!(
        recs[0].operands,
        vec!["a0".to_string(), "a1".to_string(), "0".to_string()]
    );

    let recs = PseudoInstructions::expand("not", &["a0", "a1"]).unwrap();
    assert_eq!(recs[0].mnemonic, "xori");
    assert_eq!(
        recs[0].operands,
        vec!["a0".to_string(), "a1".to_string(), "-1".to_string()]
    );

    let recs = PseudoInstructions::expand("neg", &["a0", "a1"]).unwrap();
    assert_eq!(recs[0].mnemonic, "sub");
    assert_eq!(
        recs[0].operands,
        vec!["a0".to_string(), "x0".to_string(), "a1".to_string()]
    );

    let recs = PseudoInstructions::expand("seqz", &["a0", "a1"]).unwrap();
    assert_eq!(recs[0].mnemonic, "sltiu");
    assert_eq!(
        recs[0].operands,
        vec!["a0".to_string(), "a1".to_string(), "1".to_string()]
    );
}

#[test]
fn test_expand_branch_rewrites() {
    let recs = PseudoInstructions::expand("beqz", &["a0", "done"]).unwrap();
    assert_eq!(recs[0].mnemonic, "beq");
    assert_eq!(
        recs[0].operands,
        vec!["a0".to_string(), "x0".to_string(), "done".to_string()]
    );

    // operand-swapped comparisons
    let recs = PseudoInstructions::expand("bgt", &["a0", "a1", "done"]).unwrap();
    assert_eq!(recs[0].mnemonic, "blt");
    assert_eq!(
        recs[0].operands,
        vec!["a1".to_string(), "a0".to_string(), "done".to_string()]
    );

    let recs = PseudoInstructions::expand("bleu", &["a0", "a1", "done"]).unwrap();
    assert_eq!(recs[0].mnemonic, "bgeu");
    assert_eq!(
        recs[0].operands,
        vec!["a1".to_string(), "a0".to_string(), "done".to_string()]
    );

    let recs = PseudoInstructions::expand("blez", &["a0", "done"]).unwrap();
    assert_eq!(recs[0].mnemonic, "bge");
    assert_eq!(
        recs[0].operands,
        vec!["x0".to_string(), "a0".to_string(), "done".to_string()]
    );
}

#[test]
fn test_expand_jump_rewrites() {
    let recs = PseudoInstructions::expand("j", &["loop"]).unwrap();
    assert_eq!(recs[0].mnemonic, "jal");
    assert_eq!(recs[0].operands, vec!["x0".to_string(), "loop".to_string()]);

    let recs = PseudoInstructions::expand("jr", &["ra"]).unwrap();
    assert_eq!(recs[0].mnemonic, "jalr");
    assert_eq!(
        recs[0].operands,
        vec!["x0".to_string(), "ra".to_string(), "0".to_string()]
    );

    let recs = PseudoInstructions::expand("ret", &[]).unwrap();
    assert_eq!(recs[0].mnemonic, "jalr");
    assert_eq!(
        recs[0].operands,
        vec!["x0".to_string(), "x1".to_string(), "0".to_string()]
    );
}

#[test]
fn test_expand_checks_operand_count() {
    assert!(matches!(
        PseudoInstructions::expand("li", &["a0"]),
        Err(AssemblerError::InvalidOperand(_))
    ));
    assert!(matches!(
        PseudoInstructions::expand("nop", &["a0"]),
        Err(AssemblerError::InvalidOperand(_))
    ));
    assert!(matches!(
        PseudoInstructions::expand("bgt", &["a0", "a1"]),
        Err(AssemblerError::InvalidOperand(_))
    ));
    assert!(matches!(
        PseudoInstructions::expand("li", &["a0", "not_a_number"]),
        Err(AssemblerError::InvalidOperand(_))
    ));
}
