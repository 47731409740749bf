//! The instruction catalog: the immutable mapping from mnemonic to its
//! encoding shape, opcode and function fields. Mnemonics are matched as
//! typed, one entry per mnemonic.

use vstd::prelude::*;
use crate::assembler::text::str_eq;

verus! {

/// The six 32-bit encoding shapes.
#[derive(Clone, Copy, Debug, PartialEq, Eq, Structural)]
pub enum InstructionType {
    R,
    I,
    S,
    B,
    U,
    J,
}

/// One catalog entry: encoding shape, 7-bit opcode, and the optional 3-bit
/// and 7-bit function fields.
#[derive(Clone, Copy, Debug, PartialEq)]
pub struct InstructionFormat {
    pub fmt: InstructionType,
    pub opcode: u32,
    pub funct3: Option<u32>,
    pub funct7: Option<u32>,
}

/// The catalog entry of mnemonic `m`, if `m` names a base instruction.
pub open spec fn spec_get_instruction(m: Seq<char>) -> Option<InstructionFormat> {
    if m == "add"@ {
        Some(InstructionFormat {
            fmt: InstructionType::R,
            opcode: 0b0110011,
            funct3: Some(0b000u32),
            funct7: Some(0b0000000u32),
        })
    } else if m == "addw"@ {
        Some(InstructionFormat {
            fmt: InstructionType::R,
            opcode: 0b0111011,
            funct3: Some(0b000u32),
            funct7: Some(0b0000000u32),
        })
    } else if m == "sub"@ {
        Some(InstructionFormat {
            fmt: InstructionType::R,
            opcode: 0b0110011,
            funct3: Some(0b000u32),
            funct7: Some(0b0100000u32),
        })
    } else if m == "subw"@ {
        Some(InstructionFormat {
            fmt: InstructionType::R,
            opcode: 0b0111011,
            funct3: Some(0b000u32),
            funct7: Some(0b0100000u32),
        })
    } else if m == "xor"@ {
        Some(InstructionFormat {
            fmt: InstructionType::R,
            opcode: 0b0110011,
            funct3: Some(0b100u32),
            funct7: Some(0b0000000u32),
        })
    } else if m == "or"@ {
        Some(InstructionFormat {
            fmt: InstructionType::R,
            opcode: 0b0110011,
            funct3: Some(0b110u32),
            funct7: Some(0b0000000u32),
        })
    } else if m == "and"@ {
        Some(InstructionFormat {
            fmt: InstructionType::R,
            opcode: 0b0110011,
            funct3: Some(0b111u32),
            funct7: Some(0b0000000u32),
        })
    } else if m == "sll"@ {
        Some(InstructionFormat {
            fmt: InstructionType::R,
            opcode: 0b0110011,
            funct3: Some(0b001u32),
            funct7: Some(0b0000000u32),
        })
    } else if m == "sllw"@ {
        Some(InstructionFormat {
            fmt: InstructionType::R,
            opcode: 0b0111011,
            funct3: Some(0b001u32),
            funct7: Some(0b0000000u32),
        })
    } else if m == "srl"@ {
        Some(InstructionFormat {
            fmt: InstructionType::R,
            opcode: 0b0110011,
            funct3: Some(0b101u32),
            funct7: Some(0b0000000u32),
        })
    } else if m == "srlw"@ {
        Some(InstructionFormat {
            fmt: InstructionType::R,
            opcode: 0b0111011,
            funct3: Some(0b101u32),
            funct7: Some(0b0000000u32),
        })
    } else if m == "sra"@ {
        Some(InstructionFormat {
            fmt: InstructionType::R,
            opcode: 0b0110011,
            funct3: Some(0b101u32),
            funct7: Some(0b0100000u32),
        })
    } else if m == "sraw"@ {
        Some(InstructionFormat {
            fmt: InstructionType::R,
            opcode: 0b0111011,
            funct3: Some(0b101u32),
            funct7: Some(0b0100000u32),
        })
    } else if m == "slt"@ {
        Some(InstructionFormat {
            fmt: InstructionType::R,
            opcode: 0b0110011,
            funct3: Some(0b010u32),
            funct7: Some(0b0000000u32),
        })
    } else if m == "sltu"@ {
        Some(InstructionFormat {
            fmt: InstructionType::R,
            opcode: 0b0110011,
            funct3: Some(0b011u32),
            funct7: Some(0b0000000u32),
        })
    } else if m == "addi"@ {
        Some(InstructionFormat {
            fmt: InstructionType::I,
            opcode: 0b0010011,
            funct3: Some(0b000u32),
            funct7: None,
        })
    } else if m == "addiw"@ {
        Some(InstructionFormat {
            fmt: InstructionType::I,
            opcode: 0b0011011,
            funct3: Some(0b000u32),
            funct7: None,
        })
    } else if m == "xori"@ {
        Some(InstructionFormat {
            fmt: InstructionType::I,
            opcode: 0b0010011,
            funct3: Some(0b100u32),
            funct7: None,
        })
    } else if m == "ori"@ {
        Some(InstructionFormat {
            fmt: InstructionType::I,
            opcode: 0b0010011,
            funct3: Some(0b110u32),
            funct7: None,
        })
    } else if m == "andi"@ {
        Some(InstructionFormat {
            fmt: InstructionType::I,
            opcode: 0b0010011,
            funct3: Some(0b111u32),
            funct7: None,
        })
    } else if m == "slli"@ {
        Some(InstructionFormat {
            fmt: InstructionType::I,
            opcode: 0b0010011,
            funct3: Some(0b001u32),
            funct7: Some(0b0000000u32),
        })
    } else if m == "slliw"@ {
        Some(InstructionFormat {
            fmt: InstructionType::I,
            opcode: 0b0011011,
            funct3: Some(0b001u32),
            funct7: Some(0b0000000u32),
        })
    } else if m == "srli"@ {
        Some(InstructionFormat {
            fmt: InstructionType::I,
            opcode: 0b0010011,
            funct3: Some(0b101u32),
            funct7: Some(0b0000000u32),
        })
    } else if m == "srliw"@ {
        Some(InstructionFormat {
            fmt: InstructionType::I,
            opcode: 0b0011011,
            funct3: Some(0b101u32),
            funct7: Some(0b0000000u32),
        })
    } else if m == "srai"@ {
        Some(InstructionFormat {
            fmt: InstructionType::I,
            opcode: 0b0010011,
            funct3: Some(0b101u32),
            funct7: Some(0b0100000u32),
        })
    } else if m == "sraiw"@ {
        Some(InstructionFormat {
            fmt: InstructionType::I,
            opcode: 0b0010011,
            funct3: Some(0b101u32),
            funct7: Some(0b0100000u32),
        })
    } else if m == "slti"@ {
        Some(InstructionFormat {
            fmt: InstructionType::I,
            opcode: 0b0010011,
            funct3: Some(0b010u32),
            funct7: None,
        })
    } else if m == "sltiu"@ {
        Some(InstructionFormat {
            fmt: InstructionType::I,
            opcode: 0b0010011,
            funct3: Some(0b011u32),
            funct7: None,
        })
    } else if m == "lb"@ {
        Some(InstructionFormat {
            fmt: InstructionType::I,
            opcode: 0b0000011,
            funct3: Some(0b000u32),
            funct7: None,
        })
    } else if m == "lh"@ {
        Some(InstructionFormat {
            fmt: InstructionType::I,
            opcode: 0b0000011,
            funct3: Some(0b001u32),
            funct7: None,
        })
    } else if m == "lw"@ {
        Some(InstructionFormat {
            fmt: InstructionType::I,
            opcode: 0b0000011,
            funct3: Some(0b010u32),
            funct7: None,
        })
    } else if m == "lwu"@ {
        Some(InstructionFormat {
            fmt: InstructionType::I,
            opcode: 0b0000011,
            funct3: Some(0b110u32),
            funct7: None,
        })
    } else if m == "ld"@ {
        Some(InstructionFormat {
            fmt: InstructionType::I,
            opcode: 0b0000011,
            funct3: Some(0b011u32),
            funct7: None,
        })
    } else if m == "lbu"@ {
        Some(InstructionFormat {
            fmt: InstructionType::I,
            opcode: 0b0000011,
            funct3: Some(0b100u32),
            funct7: None,
        })
    } else if m == "lhu"@ {
        Some(InstructionFormat {
            fmt: InstructionType::I,
            opcode: 0b0000011,
            funct3: Some(0b101u32),
            funct7: None,
        })
    } else if m == "sb"@ {
        Some(InstructionFormat {
            fmt: InstructionType::S,
            opcode: 0b0100011,
            funct3: Some(0b000u32),
            funct7: None,
        })
    } else if m == "sh"@ {
        Some(InstructionFormat {
            fmt: InstructionType::S,
            opcode: 0b0100011,
            funct3: Some(0b001u32),
            funct7: None,
        })
    } else if m == "sw"@ {
        Some(InstructionFormat {
            fmt: InstructionType::S,
            opcode: 0b0100011,
            funct3: Some(0b010u32),
            funct7: None,
        })
    } else if m == "sd"@ {
        Some(InstructionFormat {
            fmt: InstructionType::S,
            opcode: 0b0100011,
            funct3: Some(0b011u32),
            funct7: None,
        })
    } else if m == "beq"@ {
        Some(InstructionFormat {
            fmt: InstructionType::B,
            opcode: 0b1100011,
            funct3: Some(0b000u32),
            funct7: None,
        })
    } else if m == "bne"@ {
        Some(InstructionFormat {
            fmt: InstructionType::B,
            opcode: 0b1100011,
            funct3: Some(0b001u32),
            funct7: None,
        })
    } else if m == "blt"@ {
        Some(InstructionFormat {
            fmt: InstructionType::B,
            opcode: 0b1100011,
            funct3: Some(0b100u32),
            funct7: None,
        })
    } else if m == "bge"@ {
        Some(InstructionFormat {
            fmt: InstructionType::B,
            opcode: 0b1100011,
            funct3: Some(0b101u32),
            funct7: None,
        })
    } else if m == "bltu"@ {
        Some(InstructionFormat {
            fmt: InstructionType::B,
            opcode: 0b1100011,
            funct3: Some(0b110u32),
            funct7: None,
        })
    } else if m == "bgeu"@ {
        Some(InstructionFormat {
            fmt: InstructionType::B,
            opcode: 0b1100011,
            funct3: Some(0b111u32),
            funct7: None,
        })
    } else if m == "lui"@ {
        Some(InstructionFormat {
            fmt: InstructionType::U,
            opcode: 0b0110111,
            funct3: None,
            funct7: None,
        })
    } else if m == "auipc"@ {
        Some(InstructionFormat {
            fmt: InstructionType::U,
            opcode: 0b0010111,
            funct3: None,
            funct7: None,
        })
    } else if m == "jal"@ {
        Some(InstructionFormat {
            fmt: InstructionType::J,
            opcode: 0b1101111,
            funct3: None,
            funct7: None,
        })
    } else if m == "jalr"@ {
        Some(InstructionFormat {
            fmt: InstructionType::I,
            opcode: 0b1100111,
            funct3: None,
            funct7: None,
        })
    } else if m == "ecall"@ {
        Some(InstructionFormat {
            fmt: InstructionType::I,
            opcode: 0b1110011,
            funct3: Some(0b000u32),
            funct7: Some(0b0000000u32),
        })
    } else if m == "ebreak"@ {
        Some(InstructionFormat {
            fmt: InstructionType::I,
            opcode: 0b1110011,
            funct3: Some(0b000u32),
            funct7: Some(0b0000001u32),
        })
    } else {
        None
    }
}

/// The base instruction set.
pub struct InstructionSet;

impl InstructionSet {
    pub fn new() -> Self {
        InstructionSet
    }

    /// Catalog lookup, case-sensitive on the mnemonic as typed.
    pub fn get_instruction(&self, instr: &str) -> (r: Option<InstructionFormat>)
        ensures
            r == spec_get_instruction(instr@),
    {
        if str_eq(instr, "add") {
            Some(InstructionFormat {
                fmt: InstructionType::R,
                opcode: 0b0110011,
                funct3: Some(0b000u32),
                funct7: Some(0b0000000u32),
            })
        } else if str_eq(instr, "addw") {
            Some(InstructionFormat {
                fmt: InstructionType::R,
                opcode: 0b0111011,
                funct3: Some(0b000u32),
                funct7: Some(0b0000000u32),
            })
        } else if str_eq(instr, "sub") {
            Some(InstructionFormat {
                fmt: InstructionType::R,
                opcode: 0b0110011,
                funct3: Some(0b000u32),
                funct7: Some(0b0100000u32),
            })
        } else if str_eq(instr, "subw") {
            Some(InstructionFormat {
                fmt: InstructionType::R,
                opcode: 0b0111011,
                funct3: Some(0b000u32),
                funct7: Some(0b0100000u32),
            })
        } else if str_eq(instr, "xor") {
            Some(InstructionFormat {
                fmt: InstructionType::R,
                opcode: 0b0110011,
                funct3: Some(0b100u32),
                funct7: Some(0b0000000u32),
            })
        } else if str_eq(instr, "or") {
            Some(InstructionFormat {
                fmt: InstructionType::R,
                opcode: 0b0110011,
                funct3: Some(0b110u32),
                funct7: Some(0b0000000u32),
            })
        } else if str_eq(instr, "and") {
            Some(InstructionFormat {
                fmt: InstructionType::R,
                opcode: 0b0110011,
                funct3: Some(0b111u32),
                funct7: Some(0b0000000u32),
            })
        } else if str_eq(instr, "sll") {
            Some(InstructionFormat {
                fmt: InstructionType::R,
                opcode: 0b0110011,
                funct3: Some(0b001u32),
                funct7: Some(0b0000000u32),
            })
        } else if str_eq(instr, "sllw") {
            Some(InstructionFormat {
                fmt: InstructionType::R,
                opcode: 0b0111011,
                funct3: Some(0b001u32),
                funct7: Some(0b0000000u32),
            })
        } else if str_eq(instr, "srl") {
            Some(InstructionFormat {
                fmt: InstructionType::R,
                opcode: 0b0110011,
                funct3: Some(0b101u32),
                funct7: Some(0b0000000u32),
            })
        } else if str_eq(instr, "srlw") {
            Some(InstructionFormat {
                fmt: InstructionType::R,
                opcode: 0b0111011,
                funct3: Some(0b101u32),
                funct7: Some(0b0000000u32),
            })
        } else if str_eq(instr, "sra") {
            Some(InstructionFormat {
                fmt: InstructionType::R,
                opcode: 0b0110011,
                funct3: Some(0b101u32),
                funct7: Some(0b0100000u32),
            })
        } else if str_eq(instr, "sraw") {
            Some(InstructionFormat {
                fmt: InstructionType::R,
                opcode: 0b0111011,
                funct3: Some(0b101u32),
                funct7: Some(0b0100000u32),
            })
        } else if str_eq(instr, "slt") {
            Some(InstructionFormat {
                fmt: InstructionType::R,
                opcode: 0b0110011,
                funct3: Some(0b010u32),
                funct7: Some(0b0000000u32),
            })
        } else if str_eq(instr, "sltu") {
            Some(InstructionFormat {
                fmt: InstructionType::R,
                opcode: 0b0110011,
                funct3: Some(0b011u32),
                funct7: Some(0b0000000u32),
            })
        } else if str_eq(instr, "addi") {
            Some(InstructionFormat {
                fmt: InstructionType::I,
                opcode: 0b0010011,
                funct3: Some(0b000u32),
                funct7: None,
            })
        } else if str_eq(instr, "addiw") {
            Some(InstructionFormat {
                fmt: InstructionType::I,
                opcode: 0b0011011,
                funct3: Some(0b000u32),
                funct7: None,
            })
        } else if str_eq(instr, "xori") {
            Some(InstructionFormat {
                fmt: InstructionType::I,
                opcode: 0b0010011,
                funct3: Some(0b100u32),
                funct7: None,
            })
        } else if str_eq(instr, "ori") {
            Some(InstructionFormat {
                fmt: InstructionType::I,
                opcode: 0b0010011,
                funct3: Some(0b110u32),
                funct7: None,
            })
        } else if str_eq(instr, "andi") {
            Some(InstructionFormat {
                fmt: InstructionType::I,
                opcode: 0b0010011,
                funct3: Some(0b111u32),
                funct7: None,
            })
        } else if str_eq(instr, "slli") {
            Some(InstructionFormat {
                fmt: InstructionType::I,
                opcode: 0b0010011,
                funct3: Some(0b001u32),
                funct7: Some(0b0000000u32),
            })
        } else if str_eq(instr, "slliw") {
            Some(InstructionFormat {
                fmt: InstructionType::I,
                opcode: 0b0011011,
                funct3: Some(0b001u32),
                funct7: Some(0b0000000u32),
            })
        } else if str_eq(instr, "srli") {
            Some(InstructionFormat {
                fmt: InstructionType::I,
                opcode: 0b0010011,
                funct3: Some(0b101u32),
                funct7: Some(0b0000000u32),
            })
        } else if str_eq(instr, "srliw") {
            Some(InstructionFormat {
                fmt: InstructionType::I,
                opcode: 0b0011011,
                funct3: Some(0b101u32),
                funct7: Some(0b0000000u32),
            })
        } else if str_eq(instr, "srai") {
            Some(InstructionFormat {
                fmt: InstructionType::I,
                opcode: 0b0010011,
                funct3: Some(0b101u32),
                funct7: Some(0b0100000u32),
            })
        } else if str_eq(instr, "sraiw") {
            Some(InstructionFormat {
                fmt: InstructionType::I,
                opcode: 0b0010011,
                funct3: Some(0b101u32),
                funct7: Some(0b0100000u32),
            })
        } else if str_eq(instr, "slti") {
            Some(InstructionFormat {
                fmt: InstructionType::I,
                opcode: 0b0010011,
                funct3: Some(0b010u32),
                funct7: None,
            })
        } else if str_eq(instr, "sltiu") {
            Some(InstructionFormat {
                fmt: InstructionType::I,
                opcode: 0b0010011,
                funct3: Some(0b011u32),
                funct7: None,
            })
        } else if str_eq(instr, "lb") {
            Some(InstructionFormat {
                fmt: InstructionType::I,
                opcode: 0b0000011,
                funct3: Some(0b000u32),
                funct7: None,
            })
        } else if str_eq(instr, "lh") {
            Some(InstructionFormat {
                fmt: InstructionType::I,
                opcode: 0b0000011,
                funct3: Some(0b001u32),
                funct7: None,
            })
        } else if str_eq(instr, "lw") {
            Some(InstructionFormat {
                fmt: InstructionType::I,
                opcode: 0b0000011,
                funct3: Some(0b010u32),
                funct7: None,
            })
        } else if str_eq(instr, "lwu") {
            Some(InstructionFormat {
                fmt: InstructionType::I,
                opcode: 0b0000011,
                funct3: Some(0b110u32),
                funct7: None,
            })
        } else if str_eq(instr, "ld") {
            Some(InstructionFormat {
                fmt: InstructionType::I,
                opcode: 0b0000011,
                funct3: Some(0b011u32),
                funct7: None,
            })
        } else if str_eq(instr, "lbu") {
            Some(InstructionFormat {
                fmt: InstructionType::I,
                opcode: 0b0000011,
                funct3: Some(0b100u32),
                funct7: None,
            })
        } else if str_eq(instr, "lhu") {
            Some(InstructionFormat {
                fmt: InstructionType::I,
                opcode: 0b0000011,
                funct3: Some(0b101u32),
                funct7: None,
            })
        } else if str_eq(instr, "sb") {
            Some(InstructionFormat {
                fmt: InstructionType::S,
                opcode: 0b0100011,
                funct3: Some(0b000u32),
                funct7: None,
            })
        } else if str_eq(instr, "sh") {
            Some(InstructionFormat {
                fmt: InstructionType::S,
                opcode: 0b0100011,
                funct3: Some(0b001u32),
                funct7: None,
            })
        } else if str_eq(instr, "sw") {
            Some(InstructionFormat {
                fmt: InstructionType::S,
                opcode: 0b0100011,
                funct3: Some(0b010u32),
                funct7: None,
            })
        } else if str_eq(instr, "sd") {
            Some(InstructionFormat {
                fmt: InstructionType::S,
                opcode: 0b0100011,
                funct3: Some(0b011u32),
                funct7: None,
            })
        } else if str_eq(instr, "beq") {
            Some(InstructionFormat {
                fmt: InstructionType::B,
                opcode: 0b1100011,
                funct3: Some(0b000u32),
                funct7: None,
            })
        } else if str_eq(instr, "bne") {
            Some(InstructionFormat {
                fmt: InstructionType::B,
                opcode: 0b1100011,
                funct3: Some(0b001u32),
                funct7: None,
            })
        } else if str_eq(instr, "blt") {
            Some(InstructionFormat {
                fmt: InstructionType::B,
                opcode: 0b1100011,
                funct3: Some(0b100u32),
                funct7: None,
            })
        } else if str_eq(instr, "bge") {
            Some(InstructionFormat {
                fmt: InstructionType::B,
                opcode: 0b1100011,
                funct3: Some(0b101u32),
                funct7: None,
            })
        } else if str_eq(instr, "bltu") {
            Some(InstructionFormat {
                fmt: InstructionType::B,
                opcode: 0b1100011,
                funct3: Some(0b110u32),
                funct7: None,
            })
        } else if str_eq(instr, "bgeu") {
            Some(InstructionFormat {
                fmt: InstructionType::B,
                opcode: 0b1100011,
                funct3: Some(0b111u32),
                funct7: None,
            })
        } else if str_eq(instr, "lui") {
            Some(InstructionFormat {
                fmt: InstructionType::U,
                opcode: 0b0110111,
                funct3: None,
                funct7: None,
            })
        } else if str_eq(instr, "auipc") {
            Some(InstructionFormat {
                fmt: InstructionType::U,
                opcode: 0b0010111,
                funct3: None,
                funct7: None,
            })
        } else if str_eq(instr, "jal") {
            Some(InstructionFormat {
                fmt: InstructionType::J,
                opcode: 0b1101111,
                funct3: None,
                funct7: None,
            })
        } else if str_eq(instr, "jalr") {
            Some(InstructionFormat {
                fmt: InstructionType::I,
                opcode: 0b1100111,
                funct3: None,
                funct7: None,
            })
        } else if str_eq(instr, "ecall") {
            Some(InstructionFormat {
                fmt: InstructionType::I,
                opcode: 0b1110011,
                funct3: Some(0b000u32),
                funct7: Some(0b0000000u32),
            })
        } else if str_eq(instr, "ebreak") {
            Some(InstructionFormat {
                fmt: InstructionType::I,
                opcode: 0b1110011,
                funct3: Some(0b000u32),
                funct7: Some(0b0000001u32),
            })
        } else {
            None
        }
    }
}

} // verus!
