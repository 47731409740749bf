use riscv_assembler::assembler::hexdump::generate_hexdump;

#[test]
fn test_hexdump() {
    // addi a0, x0, 8
    // addi a1, x0, 8
    let binary = vec![0x13, 0x05, 0x80, 0x00, 0x93, 0x05, 0x80, 0x00];
    let expected = "00000000: 00800513\n00000004: 00800593\n";
    assert_eq!(generate_hexdump(&binary), expected);
}

#[test]
fn test_hexdump_empty() {
    let binary: Vec<u8> = vec![];
    assert_eq!(generate_hexdump(&binary), "");
}

#[test]
fn test_hexdump_pads_incomplete_word() {
    // a trailing chunk of fewer than four bytes is padded with zero bytes
    let binary = vec![0x13, 0x05, 0x80, 0x00, 0xEF, 0xCD];
    let expected = "00000000: 00800513\n00000004: 0000cdef\n";
    assert_eq!(generate_hexdump(&binary), expected);
}
