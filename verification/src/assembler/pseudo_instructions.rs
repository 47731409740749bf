//! The pseudo-instruction expander: a fixed table of rewrite rules from a
//! synthetic mnemonic and its operand tokens to one or more base
//! instructions. Expansion is a pure function of the mnemonic and its
//! tokens; it never consults addresses or the symbol table, so both passes
//! of the driver agree on how many words each line produces.

use vstd::prelude::*;
use vstd::string::StringExecFns;
use crate::assembler::error::AssemblerError;
use crate::assembler::error::ErrorKind;
use crate::assembler::error::SpecError;
use crate::assembler::error::err_matches;
use crate::assembler::error::spec_err;
use crate::assembler::numbers::i32_to_dec_string;
use crate::assembler::numbers::spec_i32_dec;
use crate::assembler::numbers::u32_to_dec_string;
use crate::assembler::parser::describe;
use crate::assembler::parser::parse_immediate;
use crate::assembler::parser::spec_parse_immediate;
use crate::assembler::text::str_eq;

verus! {

/// One rewritten instruction: a base mnemonic and its operand tokens.
pub struct TranslatedInstruction<'a> {
    pub mnemonic: &'a str,
    pub operands: Vec<String>,
}

/// The mathematical image of a rewritten instruction.
#[verifier::ext_equal]
pub struct SpecTranslated {
    pub mnemonic: Seq<char>,
    pub operands: Seq<Seq<char>>,
}

impl<'a> View for TranslatedInstruction<'a> {
    type V = SpecTranslated;

    open spec fn view(&self) -> SpecTranslated {
        SpecTranslated { mnemonic: self.mnemonic@, operands: self.operands.deep_view() }
    }
}

impl<'a> DeepView for TranslatedInstruction<'a> {
    type V = SpecTranslated;

    open spec fn deep_view(&self) -> SpecTranslated {
        self@
    }
}

/// A rewritten instruction with mnemonic `m` and operand tokens `ops`.
pub open spec fn spec_rec(m: Seq<char>, ops: Seq<Seq<char>>) -> SpecTranslated {
    SpecTranslated { mnemonic: m, operands: ops }
}

/// The upper 20 bits a `li` splits into: `(imm + 0x800) >> 12`, with
/// two's-complement wraparound on the addition.
pub open spec fn spec_li_upper(imm: i32) -> i32 {
    imm.wrapping_add(0x800) >> 12u32
}

/// The low 12-bit remainder a `li` splits into: `imm - (upper << 12)`,
/// with two's-complement wraparound.
pub open spec fn spec_li_lower(imm: i32) -> i32 {
    imm.wrapping_sub((spec_li_upper(imm) * 0x1000) as i32)
}

/// Load immediate. `li rd, imm` rewrites to a single `addi` when `imm`
/// fits the signed 12-bit range, else to `lui` plus, when the low
/// remainder is non-zero, an `addi`.
pub open spec fn spec_translate_li(ops: Seq<Seq<char>>) -> Result<Seq<SpecTranslated>, SpecError> {
    if ops.len() != 2 {
        Err(spec_err(ErrorKind::InvalidOperand))
    } else {
        match spec_parse_immediate(ops[1]) {
            None => Err(spec_err(ErrorKind::InvalidOperand)),
            Some(imm) => if -2048 <= imm <= 2047 {
                Ok(seq![spec_rec("addi"@, seq![ops[0], "x0"@, spec_i32_dec(imm)])])
            } else if spec_li_lower(imm) != 0 {
                Ok(
                    seq![
                        spec_rec("lui"@, seq![ops[0], spec_i32_dec(spec_li_upper(imm))]),
                        spec_rec(
                            "addi"@,
                            seq![ops[0], ops[0], spec_i32_dec(spec_li_lower(imm))],
                        ),
                    ],
                )
            } else {
                Ok(seq![spec_rec("lui"@, seq![ops[0], spec_i32_dec(spec_li_upper(imm))])])
            },
        }
    }
}

/// No operation. `nop` rewrites to one `addi` instruction.
pub open spec fn spec_translate_nop(ops: Seq<Seq<char>>) -> Result<Seq<SpecTranslated>, SpecError> {
    if ops.len() != 0 {
        Err(spec_err(ErrorKind::InvalidOperand))
    } else {
        Ok(seq![spec_rec("addi"@, seq!["x0"@, "x0"@, "0"@])])
    }
}
/// Copy register. `mv` rewrites to one `addi` instruction.
pub open spec fn spec_translate_mv(ops: Seq<Seq<char>>) -> Result<Seq<SpecTranslated>, SpecError> {
    if ops.len() != 2 {
        Err(spec_err(ErrorKind::InvalidOperand))
    } else {
        Ok(seq![spec_rec("addi"@, seq![ops[0], ops[1], "0"@])])
    }
}
/// One's complement. `not` rewrites to one `xori` instruction.
pub open spec fn spec_translate_not(ops: Seq<Seq<char>>) -> Result<Seq<SpecTranslated>, SpecError> {
    if ops.len() != 2 {
        Err(spec_err(ErrorKind::InvalidOperand))
    } else {
        Ok(seq![spec_rec("xori"@, seq![ops[0], ops[1], "-1"@])])
    }
}
/// Two's complement. `neg` rewrites to one `sub` instruction.
pub open spec fn spec_translate_neg(ops: Seq<Seq<char>>) -> Result<Seq<SpecTranslated>, SpecError> {
    if ops.len() != 2 {
        Err(spec_err(ErrorKind::InvalidOperand))
    } else {
        Ok(seq![spec_rec("sub"@, seq![ops[0], "x0"@, ops[1]])])
    }
}
/// Two's complement, word. `negw` rewrites to one `subw` instruction.
pub open spec fn spec_translate_negw(ops: Seq<Seq<char>>) -> Result<Seq<SpecTranslated>, SpecError> {
    if ops.len() != 2 {
        Err(spec_err(ErrorKind::InvalidOperand))
    } else {
        Ok(seq![spec_rec("subw"@, seq![ops[0], "x0"@, ops[1]])])
    }
}
/// Sign-extend word. `sext.w` rewrites to one `addiw` instruction.
pub open spec fn spec_translate_sextw(ops: Seq<Seq<char>>) -> Result<Seq<SpecTranslated>, SpecError> {
    if ops.len() != 2 {
        Err(spec_err(ErrorKind::InvalidOperand))
    } else {
        Ok(seq![spec_rec("addiw"@, seq![ops[0], ops[1], "0"@])])
    }
}
/// Set if equal to zero. `seqz` rewrites to one `sltiu` instruction.
pub open spec fn spec_translate_seqz(ops: Seq<Seq<char>>) -> Result<Seq<SpecTranslated>, SpecError> {
    if ops.len() != 2 {
        Err(spec_err(ErrorKind::InvalidOperand))
    } else {
        Ok(seq![spec_rec("sltiu"@, seq![ops[0], ops[1], "1"@])])
    }
}
/// Set if not equal to zero. `snez` rewrites to one `sltu` instruction.
pub open spec fn spec_translate_snez(ops: Seq<Seq<char>>) -> Result<Seq<SpecTranslated>, SpecError> {
    if ops.len() != 2 {
        Err(spec_err(ErrorKind::InvalidOperand))
    } else {
        Ok(seq![spec_rec("sltu"@, seq![ops[0], "x0"@, ops[1]])])
    }
}
/// Set if less than zero. `sltz` rewrites to one `slt` instruction.
pub open spec fn spec_translate_sltz(ops: Seq<Seq<char>>) -> Result<Seq<SpecTranslated>, SpecError> {
    if ops.len() != 2 {
        Err(spec_err(ErrorKind::InvalidOperand))
    } else {
        Ok(seq![spec_rec("slt"@, seq![ops[0], ops[1], "x0"@])])
    }
}
/// Set if greater than zero. `sgtz` rewrites to one `slt` instruction.
pub open spec fn spec_translate_sgtz(ops: Seq<Seq<char>>) -> Result<Seq<SpecTranslated>, SpecError> {
    if ops.len() != 2 {
        Err(spec_err(ErrorKind::InvalidOperand))
    } else {
        Ok(seq![spec_rec("slt"@, seq![ops[0], "x0"@, ops[1]])])
    }
}
/// Branch if equal to zero. `beqz` rewrites to one `beq` instruction.
pub open spec fn spec_translate_beqz(ops: Seq<Seq<char>>) -> Result<Seq<SpecTranslated>, SpecError> {
    if ops.len() != 2 {
        Err(spec_err(ErrorKind::InvalidOperand))
    } else {
        Ok(seq![spec_rec("beq"@, seq![ops[0], "x0"@, ops[1]])])
    }
}
/// Branch if not equal to zero. `bnez` rewrites to one `bne` instruction.
pub open spec fn spec_translate_bnez(ops: Seq<Seq<char>>) -> Result<Seq<SpecTranslated>, SpecError> {
    if ops.len() != 2 {
        Err(spec_err(ErrorKind::InvalidOperand))
    } else {
        Ok(seq![spec_rec("bne"@, seq![ops[0], "x0"@, ops[1]])])
    }
}
/// Branch if less than or equal to zero. `blez` rewrites to one `bge` instruction.
pub open spec fn spec_translate_blez(ops: Seq<Seq<char>>) -> Result<Seq<SpecTranslated>, SpecError> {
    if ops.len() != 2 {
        Err(spec_err(ErrorKind::InvalidOperand))
    } else {
        Ok(seq![spec_rec("bge"@, seq!["x0"@, ops[0], ops[1]])])
    }
}
/// Branch if greater than or equal to zero. `bgez` rewrites to one `bge` instruction.
pub open spec fn spec_translate_bgez(ops: Seq<Seq<char>>) -> Result<Seq<SpecTranslated>, SpecError> {
    if ops.len() != 2 {
        Err(spec_err(ErrorKind::InvalidOperand))
    } else {
        Ok(seq![spec_rec("bge"@, seq![ops[0], "x0"@, ops[1]])])
    }
}
/// Branch if less than zero. `bltz` rewrites to one `blt` instruction.
pub open spec fn spec_translate_bltz(ops: Seq<Seq<char>>) -> Result<Seq<SpecTranslated>, SpecError> {
    if ops.len() != 2 {
        Err(spec_err(ErrorKind::InvalidOperand))
    } else {
        Ok(seq![spec_rec("blt"@, seq![ops[0], "x0"@, ops[1]])])
    }
}
/// Branch if greater than zero. `bgtz` rewrites to one `blt` instruction.
pub open spec fn spec_translate_bgtz(ops: Seq<Seq<char>>) -> Result<Seq<SpecTranslated>, SpecError> {
    if ops.len() != 2 {
        Err(spec_err(ErrorKind::InvalidOperand))
    } else {
        Ok(seq![spec_rec("blt"@, seq!["x0"@, ops[0], ops[1]])])
    }
}
/// Branch if greater than. `bgt` rewrites to one `blt` instruction.
pub open spec fn spec_translate_bgt(ops: Seq<Seq<char>>) -> Result<Seq<SpecTranslated>, SpecError> {
    if ops.len() != 3 {
        Err(spec_err(ErrorKind::InvalidOperand))
    } else {
        Ok(seq![spec_rec("blt"@, seq![ops[1], ops[0], ops[2]])])
    }
}
/// Branch if less than or equal. `ble` rewrites to one `bge` instruction.
pub open spec fn spec_translate_ble(ops: Seq<Seq<char>>) -> Result<Seq<SpecTranslated>, SpecError> {
    if ops.len() != 3 {
        Err(spec_err(ErrorKind::InvalidOperand))
    } else {
        Ok(seq![spec_rec("bge"@, seq![ops[1], ops[0], ops[2]])])
    }
}
/// Branch if greater than, unsigned. `bgtu` rewrites to one `bltu` instruction.
pub open spec fn spec_translate_bgtu(ops: Seq<Seq<char>>) -> Result<Seq<SpecTranslated>, SpecError> {
    if ops.len() != 3 {
        Err(spec_err(ErrorKind::InvalidOperand))
    } else {
        Ok(seq![spec_rec("bltu"@, seq![ops[1], ops[0], ops[2]])])
    }
}
/// Branch if less than or equal, unsigned. `bleu` rewrites to one `bgeu` instruction.
pub open spec fn spec_translate_bleu(ops: Seq<Seq<char>>) -> Result<Seq<SpecTranslated>, SpecError> {
    if ops.len() != 3 {
        Err(spec_err(ErrorKind::InvalidOperand))
    } else {
        Ok(seq![spec_rec("bgeu"@, seq![ops[1], ops[0], ops[2]])])
    }
}
/// Jump. `j` rewrites to one `jal` instruction.
pub open spec fn spec_translate_j(ops: Seq<Seq<char>>) -> Result<Seq<SpecTranslated>, SpecError> {
    if ops.len() != 1 {
        Err(spec_err(ErrorKind::InvalidOperand))
    } else {
        Ok(seq![spec_rec("jal"@, seq!["x0"@, ops[0]])])
    }
}
/// Jump register. `jr` rewrites to one `jalr` instruction.
pub open spec fn spec_translate_jr(ops: Seq<Seq<char>>) -> Result<Seq<SpecTranslated>, SpecError> {
    if ops.len() != 1 {
        Err(spec_err(ErrorKind::InvalidOperand))
    } else {
        Ok(seq![spec_rec("jalr"@, seq!["x0"@, ops[0], "0"@])])
    }
}
/// Return from subroutine. `ret` rewrites to one `jalr` instruction.
pub open spec fn spec_translate_ret(ops: Seq<Seq<char>>) -> Result<Seq<SpecTranslated>, SpecError> {
    if ops.len() != 0 {
        Err(spec_err(ErrorKind::InvalidOperand))
    } else {
        Ok(seq![spec_rec("jalr"@, seq!["x0"@, "x1"@, "0"@])])
    }
}
/// Whether `m` is one of the fixed pseudo-instruction mnemonics.
pub open spec fn spec_is_pseudo(m: Seq<char>) -> bool {
    m == "nop"@ || m == "li"@ || m == "mv"@ || m == "not"@ || m == "neg"@ || m == "negw"@ || m == "sext.w"@ || m == "seqz"@ || m == "snez"@ || m == "sltz"@ || m == "sgtz"@ || m == "beqz"@ || m == "bnez"@ || m == "blez"@ || m == "bgez"@ || m == "bltz"@ || m == "bgtz"@ || m == "bgt"@ || m == "ble"@ || m == "bgtu"@ || m == "bleu"@ || m == "j"@ || m == "jr"@ || m == "ret"@
}

/// What a pseudo mnemonic with operand tokens `ops` rewrites to, or the
/// error its own operand validation raises.
pub open spec fn spec_expand(m: Seq<char>, ops: Seq<Seq<char>>) -> Result<
    Seq<SpecTranslated>,
    SpecError,
> {
    if m == "nop"@ {
        spec_translate_nop(ops)
    } else if m == "li"@ {
        spec_translate_li(ops)
    } else if m == "mv"@ {
        spec_translate_mv(ops)
    } else if m == "not"@ {
        spec_translate_not(ops)
    } else if m == "neg"@ {
        spec_translate_neg(ops)
    } else if m == "negw"@ {
        spec_translate_negw(ops)
    } else if m == "sext.w"@ {
        spec_translate_sextw(ops)
    } else if m == "seqz"@ {
        spec_translate_seqz(ops)
    } else if m == "snez"@ {
        spec_translate_snez(ops)
    } else if m == "sltz"@ {
        spec_translate_sltz(ops)
    } else if m == "sgtz"@ {
        spec_translate_sgtz(ops)
    } else if m == "beqz"@ {
        spec_translate_beqz(ops)
    } else if m == "bnez"@ {
        spec_translate_bnez(ops)
    } else if m == "blez"@ {
        spec_translate_blez(ops)
    } else if m == "bgez"@ {
        spec_translate_bgez(ops)
    } else if m == "bltz"@ {
        spec_translate_bltz(ops)
    } else if m == "bgtz"@ {
        spec_translate_bgtz(ops)
    } else if m == "bgt"@ {
        spec_translate_bgt(ops)
    } else if m == "ble"@ {
        spec_translate_ble(ops)
    } else if m == "bgtu"@ {
        spec_translate_bgtu(ops)
    } else if m == "bleu"@ {
        spec_translate_bleu(ops)
    } else if m == "j"@ {
        spec_translate_j(ops)
    } else if m == "jr"@ {
        spec_translate_jr(ops)
    } else if m == "ret"@ {
        spec_translate_ret(ops)
    } else {
        Err(spec_err(ErrorKind::InvalidInstruction))
    }
}

/// The fixed pseudo-instruction rewrite table.
pub struct PseudoInstructions;

impl PseudoInstructions {
    /// Whether a mnemonic is a pseudo-instruction.
    pub fn is_pseudo_instruction(mnemonic: &str) -> (r: bool)
        ensures
            r == spec_is_pseudo(mnemonic@),
    {
        str_eq(mnemonic, "nop") || str_eq(mnemonic, "li") || str_eq(mnemonic, "mv") || str_eq(mnemonic, "not") || str_eq(mnemonic, "neg") || str_eq(mnemonic, "negw") || str_eq(mnemonic, "sext.w") || str_eq(mnemonic, "seqz") || str_eq(mnemonic, "snez") || str_eq(mnemonic, "sltz") || str_eq(mnemonic, "sgtz") || str_eq(mnemonic, "beqz") || str_eq(mnemonic, "bnez") || str_eq(mnemonic, "blez") || str_eq(mnemonic, "bgez") || str_eq(mnemonic, "bltz") || str_eq(mnemonic, "bgtz") || str_eq(mnemonic, "bgt") || str_eq(mnemonic, "ble") || str_eq(mnemonic, "bgtu") || str_eq(mnemonic, "bleu") || str_eq(mnemonic, "j") || str_eq(mnemonic, "jr") || str_eq(mnemonic, "ret")
    }

    /// Rewrite a pseudo-instruction into its base instructions.
    pub fn expand<'a>(mnemonic: &'a str, operands: &[&str]) -> (r: Result<
        Vec<TranslatedInstruction<'a>>,
        AssemblerError,
    >)
        ensures
            match r {
                Ok(v) => spec_expand(mnemonic@, operands.deep_view()) == Ok::<
                    Seq<SpecTranslated>,
                    SpecError,
                >(v.deep_view()),
                Err(e) => spec_expand(mnemonic@, operands.deep_view()) matches Err(se)
                    && err_matches(&e, se),
            },
    {
        if str_eq(mnemonic, "nop") {
            Self::translate_nop(operands)
        } else if str_eq(mnemonic, "li") {
            Self::translate_li(operands)
        } else if str_eq(mnemonic, "mv") {
            Self::translate_mv(operands)
        } else if str_eq(mnemonic, "not") {
            Self::translate_not(operands)
        } else if str_eq(mnemonic, "neg") {
            Self::translate_neg(operands)
        } else if str_eq(mnemonic, "negw") {
            Self::translate_negw(operands)
        } else if str_eq(mnemonic, "sext.w") {
            Self::translate_sextw(operands)
        } else if str_eq(mnemonic, "seqz") {
            Self::translate_seqz(operands)
        } else if str_eq(mnemonic, "snez") {
            Self::translate_snez(operands)
        } else if str_eq(mnemonic, "sltz") {
            Self::translate_sltz(operands)
        } else if str_eq(mnemonic, "sgtz") {
            Self::translate_sgtz(operands)
        } else if str_eq(mnemonic, "beqz") {
            Self::translate_beqz(operands)
        } else if str_eq(mnemonic, "bnez") {
            Self::translate_bnez(operands)
        } else if str_eq(mnemonic, "blez") {
            Self::translate_blez(operands)
        } else if str_eq(mnemonic, "bgez") {
            Self::translate_bgez(operands)
        } else if str_eq(mnemonic, "bltz") {
            Self::translate_bltz(operands)
        } else if str_eq(mnemonic, "bgtz") {
            Self::translate_bgtz(operands)
        } else if str_eq(mnemonic, "bgt") {
            Self::translate_bgt(operands)
        } else if str_eq(mnemonic, "ble") {
            Self::translate_ble(operands)
        } else if str_eq(mnemonic, "bgtu") {
            Self::translate_bgtu(operands)
        } else if str_eq(mnemonic, "bleu") {
            Self::translate_bleu(operands)
        } else if str_eq(mnemonic, "j") {
            Self::translate_j(operands)
        } else if str_eq(mnemonic, "jr") {
            Self::translate_jr(operands)
        } else if str_eq(mnemonic, "ret") {
            Self::translate_ret(operands)
        } else {
            Err(AssemblerError::InvalidInstruction(describe("Unknown pseudo-instruction: ", mnemonic)))
        }
    }

    /// Load immediate: one `addi`, or `lui` plus an `addi` when the low
    /// remainder is non-zero.
    fn translate_li<'a>(operands: &[&str]) -> (r: Result<
        Vec<TranslatedInstruction<'a>>,
        AssemblerError,
    >)
        ensures
            match r {
                Ok(v) => spec_translate_li(operands.deep_view()) == Ok::<
                    Seq<SpecTranslated>,
                    SpecError,
                >(v.deep_view()),
                Err(e) => spec_translate_li(operands.deep_view()) matches Err(se) && err_matches(
                    &e,
                    se,
                ),
            },
    {
        check_operands("li", operands, 2)?;
        let rd = operands[0];
        let imm = match parse_immediate(operands[1]) {
            Ok(v) => v,
            Err(e) => {
                return Err(e);
            },
        };
        if -2048 <= imm && imm <= 2047 {
            let mut ops: Vec<String> = Vec::new();
            ops.push(rd.to_owned());
            ops.push("x0".to_owned());
            ops.push(i32_to_dec_string(imm));
            let mut recs: Vec<TranslatedInstruction<'a>> = Vec::new();
            recs.push(TranslatedInstruction { mnemonic: "addi", operands: ops });
            proof {
                assert(recs.deep_view() =~~= seq![
                    spec_rec(
                        "addi"@,
                        seq![operands.deep_view()[0], "x0"@, spec_i32_dec(imm)],
                    ),
                ]);
            }
            return Ok(recs);
        }
        let shifted = imm.wrapping_add(0x800);
        let upper = shifted >> 12u32;
        proof {
            assert(shifted >> 12u32 >= -0x80000 && shifted >> 12u32 <= 0x7FFFF) by (bit_vector);
        }
        let lower = imm.wrapping_sub(upper * 0x1000);
        let mut lui_ops: Vec<String> = Vec::new();
        lui_ops.push(rd.to_owned());
        lui_ops.push(i32_to_dec_string(upper));
        let mut recs: Vec<TranslatedInstruction<'a>> = Vec::new();
        recs.push(TranslatedInstruction { mnemonic: "lui", operands: lui_ops });
        if lower != 0 {
            let mut addi_ops: Vec<String> = Vec::new();
            addi_ops.push(rd.to_owned());
            addi_ops.push(rd.to_owned());
            addi_ops.push(i32_to_dec_string(lower));
            recs.push(TranslatedInstruction { mnemonic: "addi", operands: addi_ops });
            proof {
                assert(recs.deep_view() =~~= seq![
                    spec_rec(
                        "lui"@,
                        seq![operands.deep_view()[0], spec_i32_dec(spec_li_upper(imm))],
                    ),
                    spec_rec(
                        "addi"@,
                        seq![
                            operands.deep_view()[0],
                            operands.deep_view()[0],
                            spec_i32_dec(spec_li_lower(imm)),
                        ],
                    ),
                ]);
            }
        } else {
            proof {
                assert(recs.deep_view() =~~= seq![
                    spec_rec(
                        "lui"@,
                        seq![operands.deep_view()[0], spec_i32_dec(spec_li_upper(imm))],
                    ),
                ]);
            }
        }
        Ok(recs)
    }

    fn translate_nop<'a>(operands: &[&str]) -> (r: Result<
        Vec<TranslatedInstruction<'a>>,
        AssemblerError,
    >)
        ensures
            match r {
                Ok(v) => spec_translate_nop(operands.deep_view()) == Ok::<
                    Seq<SpecTranslated>,
                    SpecError,
                >(v.deep_view()),
                Err(e) => spec_translate_nop(operands.deep_view()) matches Err(se) && err_matches(
                    &e,
                    se,
                ),
            },
    {
        check_operands("nop", operands, 0)?;
        let mut ops: Vec<String> = Vec::new();
        ops.push("x0".to_owned());
        ops.push("x0".to_owned());
        ops.push("0".to_owned());
        let mut recs: Vec<TranslatedInstruction<'a>> = Vec::new();
        recs.push(TranslatedInstruction { mnemonic: "addi", operands: ops });
        proof {
            assert(recs.deep_view() =~~= seq![spec_rec("addi"@, seq!["x0"@, "x0"@, "0"@])]);
        }
        Ok(recs)
    }

    fn translate_mv<'a>(operands: &[&str]) -> (r: Result<
        Vec<TranslatedInstruction<'a>>,
        AssemblerError,
    >)
        ensures
            match r {
                Ok(v) => spec_translate_mv(operands.deep_view()) == Ok::<
                    Seq<SpecTranslated>,
                    SpecError,
                >(v.deep_view()),
                Err(e) => spec_translate_mv(operands.deep_view()) matches Err(se) && err_matches(
                    &e,
                    se,
                ),
            },
    {
        check_operands("mv", operands, 2)?;
        let mut ops: Vec<String> = Vec::new();
        ops.push(operands[0].to_owned());
        ops.push(operands[1].to_owned());
        ops.push("0".to_owned());
        let mut recs: Vec<TranslatedInstruction<'a>> = Vec::new();
        recs.push(TranslatedInstruction { mnemonic: "addi", operands: ops });
        proof {
            assert(recs.deep_view() =~~= seq![spec_rec("addi"@, seq![operands.deep_view()[0], operands.deep_view()[1], "0"@])]);
        }
        Ok(recs)
    }

    fn translate_not<'a>(operands: &[&str]) -> (r: Result<
        Vec<TranslatedInstruction<'a>>,
        AssemblerError,
    >)
        ensures
            match r {
                Ok(v) => spec_translate_not(operands.deep_view()) == Ok::<
                    Seq<SpecTranslated>,
                    SpecError,
                >(v.deep_view()),
                Err(e) => spec_translate_not(operands.deep_view()) matches Err(se) && err_matches(
                    &e,
                    se,
                ),
            },
    {
        check_operands("not", operands, 2)?;
        let mut ops: Vec<String> = Vec::new();
        ops.push(operands[0].to_owned());
        ops.push(operands[1].to_owned());
        ops.push("-1".to_owned());
        let mut recs: Vec<TranslatedInstruction<'a>> = Vec::new();
        recs.push(TranslatedInstruction { mnemonic: "xori", operands: ops });
        proof {
            assert(recs.deep_view() =~~= seq![spec_rec("xori"@, seq![operands.deep_view()[0], operands.deep_view()[1], "-1"@])]);
        }
        Ok(recs)
    }

    fn translate_neg<'a>(operands: &[&str]) -> (r: Result<
        Vec<TranslatedInstruction<'a>>,
        AssemblerError,
    >)
        ensures
            match r {
                Ok(v) => spec_translate_neg(operands.deep_view()) == Ok::<
                    Seq<SpecTranslated>,
                    SpecError,
                >(v.deep_view()),
                Err(e) => spec_translate_neg(operands.deep_view()) matches Err(se) && err_matches(
                    &e,
                    se,
                ),
            },
    {
        check_operands("neg", operands, 2)?;
        let mut ops: Vec<String> = Vec::new();
        ops.push(operands[0].to_owned());
        ops.push("x0".to_owned());
        ops.push(operands[1].to_owned());
        let mut recs: Vec<TranslatedInstruction<'a>> = Vec::new();
        recs.push(TranslatedInstruction { mnemonic: "sub", operands: ops });
        proof {
            assert(recs.deep_view() =~~= seq![spec_rec("sub"@, seq![operands.deep_view()[0], "x0"@, operands.deep_view()[1]])]);
        }
        Ok(recs)
    }

    fn translate_negw<'a>(operands: &[&str]) -> (r: Result<
        Vec<TranslatedInstruction<'a>>,
        AssemblerError,
    >)
        ensures
            match r {
                Ok(v) => spec_translate_negw(operands.deep_view()) == Ok::<
                    Seq<SpecTranslated>,
                    SpecError,
                >(v.deep_view()),
                Err(e) => spec_translate_negw(operands.deep_view()) matches Err(se) && err_matches(
                    &e,
                    se,
                ),
            },
    {
        check_operands("negw", operands, 2)?;
        let mut ops: Vec<String> = Vec::new();
        ops.push(operands[0].to_owned());
        ops.push("x0".to_owned());
        ops.push(operands[1].to_owned());
        let mut recs: Vec<TranslatedInstruction<'a>> = Vec::new();
        recs.push(TranslatedInstruction { mnemonic: "subw", operands: ops });
        proof {
            assert(recs.deep_view() =~~= seq![spec_rec("subw"@, seq![operands.deep_view()[0], "x0"@, operands.deep_view()[1]])]);
        }
        Ok(recs)
    }

    fn translate_sextw<'a>(operands: &[&str]) -> (r: Result<
        Vec<TranslatedInstruction<'a>>,
        AssemblerError,
    >)
        ensures
            match r {
                Ok(v) => spec_translate_sextw(operands.deep_view()) == Ok::<
                    Seq<SpecTranslated>,
                    SpecError,
                >(v.deep_view()),
                Err(e) => spec_translate_sextw(operands.deep_view()) matches Err(se) && err_matches(
                    &e,
                    se,
                ),
            },
    {
        check_operands("sext.w", operands, 2)?;
        let mut ops: Vec<String> = Vec::new();
        ops.push(operands[0].to_owned());
        ops.push(operands[1].to_owned());
        ops.push("0".to_owned());
        let mut recs: Vec<TranslatedInstruction<'a>> = Vec::new();
        recs.push(TranslatedInstruction { mnemonic: "addiw", operands: ops });
        proof {
            assert(recs.deep_view() =~~= seq![spec_rec("addiw"@, seq![operands.deep_view()[0], operands.deep_view()[1], "0"@])]);
        }
        Ok(recs)
    }

    fn translate_seqz<'a>(operands: &[&str]) -> (r: Result<
        Vec<TranslatedInstruction<'a>>,
        AssemblerError,
    >)
        ensures
            match r {
                Ok(v) => spec_translate_seqz(operands.deep_view()) == Ok::<
                    Seq<SpecTranslated>,
                    SpecError,
                >(v.deep_view()),
                Err(e) => spec_translate_seqz(operands.deep_view()) matches Err(se) && err_matches(
                    &e,
                    se,
                ),
            },
    {
        check_operands("seqz", operands, 2)?;
        let mut ops: Vec<String> = Vec::new();
        ops.push(operands[0].to_owned());
        ops.push(operands[1].to_owned());
        ops.push("1".to_owned());
        let mut recs: Vec<TranslatedInstruction<'a>> = Vec::new();
        recs.push(TranslatedInstruction { mnemonic: "sltiu", operands: ops });
        proof {
            assert(recs.deep_view() =~~= seq![spec_rec("sltiu"@, seq![operands.deep_view()[0], operands.deep_view()[1], "1"@])]);
        }
        Ok(recs)
    }

    fn translate_snez<'a>(operands: &[&str]) -> (r: Result<
        Vec<TranslatedInstruction<'a>>,
        AssemblerError,
    >)
        ensures
            match r {
                Ok(v) => spec_translate_snez(operands.deep_view()) == Ok::<
                    Seq<SpecTranslated>,
                    SpecError,
                >(v.deep_view()),
                Err(e) => spec_translate_snez(operands.deep_view()) matches Err(se) && err_matches(
                    &e,
                    se,
                ),
            },
    {
        check_operands("snez", operands, 2)?;
        let mut ops: Vec<String> = Vec::new();
        ops.push(operands[0].to_owned());
        ops.push("x0".to_owned());
        ops.push(operands[1].to_owned());
        let mut recs: Vec<TranslatedInstruction<'a>> = Vec::new();
        recs.push(TranslatedInstruction { mnemonic: "sltu", operands: ops });
        proof {
            assert(recs.deep_view() =~~= seq![spec_rec("sltu"@, seq![operands.deep_view()[0], "x0"@, operands.deep_view()[1]])]);
        }
        Ok(recs)
    }

    fn translate_sltz<'a>(operands: &[&str]) -> (r: Result<
        Vec<TranslatedInstruction<'a>>,
        AssemblerError,
    >)
        ensures
            match r {
                Ok(v) => spec_translate_sltz(operands.deep_view()) == Ok::<
                    Seq<SpecTranslated>,
                    SpecError,
                >(v.deep_view()),
                Err(e) => spec_translate_sltz(operands.deep_view()) matches Err(se) && err_matches(
                    &e,
                    se,
                ),
            },
    {
        check_operands("sltz", operands, 2)?;
        let mut ops: Vec<String> = Vec::new();
        ops.push(operands[0].to_owned());
        ops.push(operands[1].to_owned());
        ops.push("x0".to_owned());
        let mut recs: Vec<TranslatedInstruction<'a>> = Vec::new();
        recs.push(TranslatedInstruction { mnemonic: "slt", operands: ops });
        proof {
            assert(recs.deep_view() =~~= seq![spec_rec("slt"@, seq![operands.deep_view()[0], operands.deep_view()[1], "x0"@])]);
        }
        Ok(recs)
    }

    fn translate_sgtz<'a>(operands: &[&str]) -> (r: Result<
        Vec<TranslatedInstruction<'a>>,
        AssemblerError,
    >)
        ensures
            match r {
                Ok(v) => spec_translate_sgtz(operands.deep_view()) == Ok::<
                    Seq<SpecTranslated>,
                    SpecError,
                >(v.deep_view()),
                Err(e) => spec_translate_sgtz(operands.deep_view()) matches Err(se) && err_matches(
                    &e,
                    se,
                ),
            },
    {
        check_operands("sgtz", operands, 2)?;
        let mut ops: Vec<String> = Vec::new();
        ops.push(operands[0].to_owned());
        ops.push("x0".to_owned());
        ops.push(operands[1].to_owned());
        let mut recs: Vec<TranslatedInstruction<'a>> = Vec::new();
        recs.push(TranslatedInstruction { mnemonic: "slt", operands: ops });
        proof {
            assert(recs.deep_view() =~~= seq![spec_rec("slt"@, seq![operands.deep_view()[0], "x0"@, operands.deep_view()[1]])]);
        }
        Ok(recs)
    }

    fn translate_beqz<'a>(operands: &[&str]) -> (r: Result<
        Vec<TranslatedInstruction<'a>>,
        AssemblerError,
    >)
        ensures
            match r {
                Ok(v) => spec_translate_beqz(operands.deep_view()) == Ok::<
                    Seq<SpecTranslated>,
                    SpecError,
                >(v.deep_view()),
                Err(e) => spec_translate_beqz(operands.deep_view()) matches Err(se) && err_matches(
                    &e,
                    se,
                ),
            },
    {
        check_operands("beqz", operands, 2)?;
        let mut ops: Vec<String> = Vec::new();
        ops.push(operands[0].to_owned());
        ops.push("x0".to_owned());
        ops.push(operands[1].to_owned());
        let mut recs: Vec<TranslatedInstruction<'a>> = Vec::new();
        recs.push(TranslatedInstruction { mnemonic: "beq", operands: ops });
        proof {
            assert(recs.deep_view() =~~= seq![spec_rec("beq"@, seq![operands.deep_view()[0], "x0"@, operands.deep_view()[1]])]);
        }
        Ok(recs)
    }

    fn translate_bnez<'a>(operands: &[&str]) -> (r: Result<
        Vec<TranslatedInstruction<'a>>,
        AssemblerError,
    >)
        ensures
            match r {
                Ok(v) => spec_translate_bnez(operands.deep_view()) == Ok::<
                    Seq<SpecTranslated>,
                    SpecError,
                >(v.deep_view()),
                Err(e) => spec_translate_bnez(operands.deep_view()) matches Err(se) && err_matches(
                    &e,
                    se,
                ),
            },
    {
        check_operands("bnez", operands, 2)?;
        let mut ops: Vec<String> = Vec::new();
        ops.push(operands[0].to_owned());
        ops.push("x0".to_owned());
        ops.push(operands[1].to_owned());
        let mut recs: Vec<TranslatedInstruction<'a>> = Vec::new();
        recs.push(TranslatedInstruction { mnemonic: "bne", operands: ops });
        proof {
            assert(recs.deep_view() =~~= seq![spec_rec("bne"@, seq![operands.deep_view()[0], "x0"@, operands.deep_view()[1]])]);
        }
        Ok(recs)
    }

    fn translate_blez<'a>(operands: &[&str]) -> (r: Result<
        Vec<TranslatedInstruction<'a>>,
        AssemblerError,
    >)
        ensures
            match r {
                Ok(v) => spec_translate_blez(operands.deep_view()) == Ok::<
                    Seq<SpecTranslated>,
                    SpecError,
                >(v.deep_view()),
                Err(e) => spec_translate_blez(operands.deep_view()) matches Err(se) && err_matches(
                    &e,
                    se,
                ),
            },
    {
        check_operands("blez", operands, 2)?;
        let mut ops: Vec<String> = Vec::new();
        ops.push("x0".to_owned());
        ops.push(operands[0].to_owned());
        ops.push(operands[1].to_owned());
        let mut recs: Vec<TranslatedInstruction<'a>> = Vec::new();
        recs.push(TranslatedInstruction { mnemonic: "bge", operands: ops });
        proof {
            assert(recs.deep_view() =~~= seq![spec_rec("bge"@, seq!["x0"@, operands.deep_view()[0], operands.deep_view()[1]])]);
        }
        Ok(recs)
    }

    fn translate_bgez<'a>(operands: &[&str]) -> (r: Result<
        Vec<TranslatedInstruction<'a>>,
        AssemblerError,
    >)
        ensures
            match r {
                Ok(v) => spec_translate_bgez(operands.deep_view()) == Ok::<
                    Seq<SpecTranslated>,
                    SpecError,
                >(v.deep_view()),
                Err(e) => spec_translate_bgez(operands.deep_view()) matches Err(se) && err_matches(
                    &e,
                    se,
                ),
            },
    {
        check_operands("bgez", operands, 2)?;
        let mut ops: Vec<String> = Vec::new();
        ops.push(operands[0].to_owned());
        ops.push("x0".to_owned());
        ops.push(operands[1].to_owned());
        let mut recs: Vec<TranslatedInstruction<'a>> = Vec::new();
        recs.push(TranslatedInstruction { mnemonic: "bge", operands: ops });
        proof {
            assert(recs.deep_view() =~~= seq![spec_rec("bge"@, seq![operands.deep_view()[0], "x0"@, operands.deep_view()[1]])]);
        }
        Ok(recs)
    }

    fn translate_bltz<'a>(operands: &[&str]) -> (r: Result<
        Vec<TranslatedInstruction<'a>>,
        AssemblerError,
    >)
        ensures
            match r {
                Ok(v) => spec_translate_bltz(operands.deep_view()) == Ok::<
                    Seq<SpecTranslated>,
                    SpecError,
                >(v.deep_view()),
                Err(e) => spec_translate_bltz(operands.deep_view()) matches Err(se) && err_matches(
                    &e,
                    se,
                ),
            },
    {
        check_operands("bltz", operands, 2)?;
        let mut ops: Vec<String> = Vec::new();
        ops.push(operands[0].to_owned());
        ops.push("x0".to_owned());
        ops.push(operands[1].to_owned());
        let mut recs: Vec<TranslatedInstruction<'a>> = Vec::new();
        recs.push(TranslatedInstruction { mnemonic: "blt", operands: ops });
        proof {
            assert(recs.deep_view() =~~= seq![spec_rec("blt"@, seq![operands.deep_view()[0], "x0"@, operands.deep_view()[1]])]);
        }
        Ok(recs)
    }

    fn translate_bgtz<'a>(operands: &[&str]) -> (r: Result<
        Vec<TranslatedInstruction<'a>>,
        AssemblerError,
    >)
        ensures
            match r {
                Ok(v) => spec_translate_bgtz(operands.deep_view()) == Ok::<
                    Seq<SpecTranslated>,
                    SpecError,
                >(v.deep_view()),
                Err(e) => spec_translate_bgtz(operands.deep_view()) matches Err(se) && err_matches(
                    &e,
                    se,
                ),
            },
    {
        check_operands("bgtz", operands, 2)?;
        let mut ops: Vec<String> = Vec::new();
        ops.push("x0".to_owned());
        ops.push(operands[0].to_owned());
        ops.push(operands[1].to_owned());
        let mut recs: Vec<TranslatedInstruction<'a>> = Vec::new();
        recs.push(TranslatedInstruction { mnemonic: "blt", operands: ops });
        proof {
            assert(recs.deep_view() =~~= seq![spec_rec("blt"@, seq!["x0"@, operands.deep_view()[0], operands.deep_view()[1]])]);
        }
        Ok(recs)
    }

    fn translate_bgt<'a>(operands: &[&str]) -> (r: Result<
        Vec<TranslatedInstruction<'a>>,
        AssemblerError,
    >)
        ensures
            match r {
                Ok(v) => spec_translate_bgt(operands.deep_view()) == Ok::<
                    Seq<SpecTranslated>,
                    SpecError,
                >(v.deep_view()),
                Err(e) => spec_translate_bgt(operands.deep_view()) matches Err(se) && err_matches(
                    &e,
                    se,
                ),
            },
    {
        check_operands("bgt", operands, 3)?;
        let mut ops: Vec<String> = Vec::new();
        ops.push(operands[1].to_owned());
        ops.push(operands[0].to_owned());
        ops.push(operands[2].to_owned());
        let mut recs: Vec<TranslatedInstruction<'a>> = Vec::new();
        recs.push(TranslatedInstruction { mnemonic: "blt", operands: ops });
        proof {
            assert(recs.deep_view() =~~= seq![spec_rec("blt"@, seq![operands.deep_view()[1], operands.deep_view()[0], operands.deep_view()[2]])]);
        }
        Ok(recs)
    }

    fn translate_ble<'a>(operands: &[&str]) -> (r: Result<
        Vec<TranslatedInstruction<'a>>,
        AssemblerError,
    >)
        ensures
            match r {
                Ok(v) => spec_translate_ble(operands.deep_view()) == Ok::<
                    Seq<SpecTranslated>,
                    SpecError,
                >(v.deep_view()),
                Err(e) => spec_translate_ble(operands.deep_view()) matches Err(se) && err_matches(
                    &e,
                    se,
                ),
            },
    {
        check_operands("ble", operands, 3)?;
        let mut ops: Vec<String> = Vec::new();
        ops.push(operands[1].to_owned());
        ops.push(operands[0].to_owned());
        ops.push(operands[2].to_owned());
        let mut recs: Vec<TranslatedInstruction<'a>> = Vec::new();
        recs.push(TranslatedInstruction { mnemonic: "bge", operands: ops });
        proof {
            assert(recs.deep_view() =~~= seq![spec_rec("bge"@, seq![operands.deep_view()[1], operands.deep_view()[0], operands.deep_view()[2]])]);
        }
        Ok(recs)
    }

    fn translate_bgtu<'a>(operands: &[&str]) -> (r: Result<
        Vec<TranslatedInstruction<'a>>,
        AssemblerError,
    >)
        ensures
            match r {
                Ok(v) => spec_translate_bgtu(operands.deep_view()) == Ok::<
                    Seq<SpecTranslated>,
                    SpecError,
                >(v.deep_view()),
                Err(e) => spec_translate_bgtu(operands.deep_view()) matches Err(se) && err_matches(
                    &e,
                    se,
                ),
            },
    {
        check_operands("bgtu", operands, 3)?;
        let mut ops: Vec<String> = Vec::new();
        ops.push(operands[1].to_owned());
        ops.push(operands[0].to_owned());
        ops.push(operands[2].to_owned());
        let mut recs: Vec<TranslatedInstruction<'a>> = Vec::new();
        recs.push(TranslatedInstruction { mnemonic: "bltu", operands: ops });
        proof {
            assert(recs.deep_view() =~~= seq![spec_rec("bltu"@, seq![operands.deep_view()[1], operands.deep_view()[0], operands.deep_view()[2]])]);
        }
        Ok(recs)
    }

    fn translate_bleu<'a>(operands: &[&str]) -> (r: Result<
        Vec<TranslatedInstruction<'a>>,
        AssemblerError,
    >)
        ensures
            match r {
                Ok(v) => spec_translate_bleu(operands.deep_view()) == Ok::<
                    Seq<SpecTranslated>,
                    SpecError,
                >(v.deep_view()),
                Err(e) => spec_translate_bleu(operands.deep_view()) matches Err(se) && err_matches(
                    &e,
                    se,
                ),
            },
    {
        check_operands("bleu", operands, 3)?;
        let mut ops: Vec<String> = Vec::new();
        ops.push(operands[1].to_owned());
        ops.push(operands[0].to_owned());
        ops.push(operands[2].to_owned());
        let mut recs: Vec<TranslatedInstruction<'a>> = Vec::new();
        recs.push(TranslatedInstruction { mnemonic: "bgeu", operands: ops });
        proof {
            assert(recs.deep_view() =~~= seq![spec_rec("bgeu"@, seq![operands.deep_view()[1], operands.deep_view()[0], operands.deep_view()[2]])]);
        }
        Ok(recs)
    }

    fn translate_j<'a>(operands: &[&str]) -> (r: Result<
        Vec<TranslatedInstruction<'a>>,
        AssemblerError,
    >)
        ensures
            match r {
                Ok(v) => spec_translate_j(operands.deep_view()) == Ok::<
                    Seq<SpecTranslated>,
                    SpecError,
                >(v.deep_view()),
                Err(e) => spec_translate_j(operands.deep_view()) matches Err(se) && err_matches(
                    &e,
                    se,
                ),
            },
    {
        check_operands("j", operands, 1)?;
        let mut ops: Vec<String> = Vec::new();
        ops.push("x0".to_owned());
        ops.push(operands[0].to_owned());
        let mut recs: Vec<TranslatedInstruction<'a>> = Vec::new();
        recs.push(TranslatedInstruction { mnemonic: "jal", operands: ops });
        proof {
            assert(recs.deep_view() =~~= seq![spec_rec("jal"@, seq!["x0"@, operands.deep_view()[0]])]);
        }
        Ok(recs)
    }

    fn translate_jr<'a>(operands: &[&str]) -> (r: Result<
        Vec<TranslatedInstruction<'a>>,
        AssemblerError,
    >)
        ensures
            match r {
                Ok(v) => spec_translate_jr(operands.deep_view()) == Ok::<
                    Seq<SpecTranslated>,
                    SpecError,
                >(v.deep_view()),
                Err(e) => spec_translate_jr(operands.deep_view()) matches Err(se) && err_matches(
                    &e,
                    se,
                ),
            },
    {
        check_operands("jr", operands, 1)?;
        let mut ops: Vec<String> = Vec::new();
        ops.push("x0".to_owned());
        ops.push(operands[0].to_owned());
        ops.push("0".to_owned());
        let mut recs: Vec<TranslatedInstruction<'a>> = Vec::new();
        recs.push(TranslatedInstruction { mnemonic: "jalr", operands: ops });
        proof {
            assert(recs.deep_view() =~~= seq![spec_rec("jalr"@, seq!["x0"@, operands.deep_view()[0], "0"@])]);
        }
        Ok(recs)
    }

    fn translate_ret<'a>(operands: &[&str]) -> (r: Result<
        Vec<TranslatedInstruction<'a>>,
        AssemblerError,
    >)
        ensures
            match r {
                Ok(v) => spec_translate_ret(operands.deep_view()) == Ok::<
                    Seq<SpecTranslated>,
                    SpecError,
                >(v.deep_view()),
                Err(e) => spec_translate_ret(operands.deep_view()) matches Err(se) && err_matches(
                    &e,
                    se,
                ),
            },
    {
        check_operands("ret", operands, 0)?;
        let mut ops: Vec<String> = Vec::new();
        ops.push("x0".to_owned());
        ops.push("x1".to_owned());
        ops.push("0".to_owned());
        let mut recs: Vec<TranslatedInstruction<'a>> = Vec::new();
        recs.push(TranslatedInstruction { mnemonic: "jalr", operands: ops });
        proof {
            assert(recs.deep_view() =~~= seq![spec_rec("jalr"@, seq!["x0"@, "x1"@, "0"@])]);
        }
        Ok(recs)
    }

}

/// The split a `li` makes is faithful: the low part stays within the
/// signed 12-bit range addis accept, and `upper * 4096 + lower` gives the
/// original immediate back, up to 32-bit wraparound.
pub proof fn lemma_li_round_trip(imm: i32)
    ensures
        -2048 <= spec_li_lower(imm) <= 2047,
        -0x80000 <= spec_li_upper(imm) <= 0x7FFFF,
        (spec_li_upper(imm) * 0x1000 + spec_li_lower(imm)) % 0x100000000 == (imm as int)
            % 0x100000000,
{
    let t = imm.wrapping_add(0x800);
    let u = spec_li_upper(imm);
    assert(u == t >> 12u32);
    assert((t >> 12u32) >= -0x80000 && (t >> 12u32) <= 0x7FFFF && 0 <= t - (t >> 12u32) * 0x1000
        && t - (t >> 12u32) * 0x1000 < 0x1000) by (bit_vector);
    let r = t - u * 0x1000;
    let p = (u * 0x1000) as i32;
    assert(p == u * 0x1000);
    assert(spec_li_lower(imm) == imm.wrapping_sub(p));
    let l = spec_li_lower(imm);
    if imm + 0x800 > i32::MAX {
        // the addition wrapped: `t` sits one full turn below `imm + 0x800`
        assert(t == imm + 0x800 - 0x100000000);
        assert(imm - p == r - 0x800 + 0x100000000);
        assert(l == r - 0x800);
        assert(u * 0x1000 + l == imm - 0x100000000);
        vstd::arithmetic::div_mod::lemma_mod_sub_multiples_vanish(imm as int, 0x100000000);
    } else {
        assert(t == imm + 0x800);
        assert(imm - p == r - 0x800);
        assert(l == r - 0x800);
        assert(u * 0x1000 + l == imm);
    }
}

/// Load-immediate widths: an immediate in the signed 12-bit range expands
/// to exactly one instruction; outside it, to two when the low remainder
/// is non-zero and one otherwise — a function of the literal value alone,
/// never of the symbol table.
pub proof fn lemma_li_expansion(ops: Seq<Seq<char>>, imm: i32)
    requires
        ops.len() == 2,
        spec_parse_immediate(ops[1]) == Some(imm),
    ensures
        spec_translate_li(ops) is Ok,
        -2048 <= imm <= 2047 ==> spec_translate_li(ops)->Ok_0.len() == 1,
        !(-2048 <= imm <= 2047) && spec_li_lower(imm) != 0 ==> spec_translate_li(ops)->Ok_0.len()
            == 2,
        !(-2048 <= imm <= 2047) && spec_li_lower(imm) == 0 ==> spec_translate_li(ops)->Ok_0.len()
            == 1,
{
}

/// Every pseudo-instruction rewrites to at most two base instructions.
pub proof fn lemma_expand_len(m: Seq<char>, ops: Seq<Seq<char>>)
    ensures
        spec_expand(m, ops) matches Ok(recs) ==> 1 <= recs.len() <= 2,
{
}

/// Check a pseudo-instruction's operand count before rewriting.
fn check_operands(name: &str, operands: &[&str], expected_len: usize) -> (r: Result<
    (),
    AssemblerError,
>)
    ensures
        match r {
            Ok(_) => operands@.len() == expected_len,
            Err(e) => operands@.len() != expected_len && e.kind() == ErrorKind::InvalidOperand,
        },
{
    if operands.len() != expected_len {
        let mut m = "Expected ".to_owned();
        m.append(u32_to_dec_string(#[verifier::truncate] (expected_len as u32)).as_str());
        m.append(" operands for ");
        m.append(name);
        m.append(" but received ");
        m.append(u32_to_dec_string(#[verifier::truncate] (operands.len() as u32)).as_str());
        return Err(AssemblerError::InvalidOperand(m));
    }
    Ok(())
}

} // verus!
