//! Operand parsers: register tokens, multi-radix immediates, `offset(base)`
//! pairs and CSR tokens, and the per-format instruction parsers.

use vstd::prelude::*;
use vstd::string::StrSliceExecFns;
use vstd::string::StringExecFns;
use crate::assembler::csr::csr_address;
use crate::assembler::encoder::encode_b_type;
use crate::assembler::encoder::encode_i_type;
use crate::assembler::encoder::encode_j_type;
use crate::assembler::encoder::encode_r_type;
use crate::assembler::encoder::encode_s_type;
use crate::assembler::encoder::encode_u_type;
use crate::assembler::encoder::spec_encode_b_type;
use crate::assembler::encoder::spec_encode_i_type;
use crate::assembler::encoder::spec_encode_j_type;
use crate::assembler::encoder::spec_encode_r_type;
use crate::assembler::encoder::spec_encode_s_type;
use crate::assembler::encoder::spec_encode_u_type;
use crate::assembler::instructions::InstructionFormat;
use crate::assembler::instructions::InstructionSet;
use crate::assembler::instructions::InstructionType;
use crate::assembler::instructions::spec_get_instruction;
use crate::assembler::pseudo_instructions::PseudoInstructions;
use crate::assembler::pseudo_instructions::TranslatedInstruction;
use crate::assembler::pseudo_instructions::SpecTranslated;
use crate::assembler::pseudo_instructions::lemma_expand_len;
use crate::assembler::pseudo_instructions::lemma_li_round_trip;
use crate::assembler::pseudo_instructions::spec_li_lower;
use crate::assembler::pseudo_instructions::spec_li_upper;
use crate::assembler::pseudo_instructions::spec_rec;
use crate::assembler::pseudo_instructions::spec_translate_li;
use crate::assembler::pseudo_instructions::spec_expand;
use crate::assembler::pseudo_instructions::spec_is_pseudo;
use crate::assembler::symbols::SymbolTable;
use crate::assembler::text::is_space;
use crate::assembler::text::lemma_tokens_nonempty;
use crate::assembler::text::lemma_trim_chars;
use crate::assembler::text::lemma_trim_head;
use crate::assembler::text::lemma_trim_idempotent;
use crate::assembler::text::spec_tokens;
use crate::assembler::text::spec_trim;
use crate::assembler::text::str_eq;
use crate::assembler::text::tokenize;
use crate::assembler::text::trim;
use crate::assembler::csr::spec_csr_address;
use crate::assembler::error::AssemblerError;
use crate::assembler::error::ErrorKind;
use crate::assembler::error::SpecError;
use crate::assembler::error::err_matches;
use crate::assembler::error::spec_err;
use crate::assembler::error::spec_undefined_label;
use crate::assembler::numbers::lemma_radix_round_trip;
use crate::assembler::numbers::lemma_radix_str_chars;
use crate::assembler::numbers::parse_u32_radix;
use crate::assembler::numbers::parse_u32_radix_chars;
use crate::assembler::numbers::spec_parse_u32_radix;
use crate::assembler::numbers::spec_i32_dec;
use crate::assembler::numbers::spec_u32_dec;
use crate::assembler::numbers::spec_u32_radix_str;
use crate::assembler::registers::abi_register;
use crate::assembler::registers::spec_abi_register;
use crate::assembler::text::char_lower;
use crate::assembler::text::find_char;
use crate::assembler::text::lemma_index_of;
use crate::assembler::text::lemma_lower_identity;
use crate::assembler::text::lemma_no_underscores;
use crate::assembler::text::lower_char;
use crate::assembler::text::spec_index_of;
use crate::assembler::text::spec_lower;
use crate::assembler::text::spec_strip_underscores;
use crate::assembler::text::strip_underscores;

verus! {

/// Concatenate a fixed message with the offending token.
pub(crate) fn describe(prefix: &str, detail: &str) -> (r: String)
    ensures
        r@ == prefix@ + detail@,
{
    let mut r = prefix.to_owned();
    r.append(detail);
    r
}

/// What a register token denotes: an ABI name looked up case-insensitively,
/// or an `x`- or `$`-prefixed decimal register number below 32.
pub open spec fn spec_parse_register(s: Seq<char>) -> Option<u32> {
    match spec_abi_register(spec_lower(s)) {
        Some(n) => Some(n),
        None => {
            if s.len() >= 1 && (lower_char(s[0]) == 'x' || lower_char(s[0]) == '$') {
                match spec_parse_u32_radix(s.skip(1), 10) {
                    Some(n) => if n < 32 {
                        Some(n)
                    } else {
                        None
                    },
                    None => None,
                }
            } else {
                None
            }
        },
    }
}

/// Parse a register token: an ABI name (`zero`, `ra`, `sp`, ..., case
/// insensitive), `x<N>` or `$<N>` with `N` in `0..=31`. Anything else is an
/// `InvalidOperand` error.
pub fn parse_register(register: &str) -> (r: Result<u32, AssemblerError>)
    ensures
        match r {
            Ok(n) => spec_parse_register(register@) == Some(n),
            Err(e) => spec_parse_register(register@) is None && e.kind()
                == ErrorKind::InvalidOperand,
        },
{
    if let Some(n) = abi_register(register) {
        return Ok(n);
    }
    let len = register.unicode_len();
    if len >= 1 {
        let c0 = char_lower(register.get_char(0));
        if c0 == 'x' || c0 == '$' {
            let tail = register.substring_char(1, len);
            proof {
                assert(tail@ =~= register@.skip(1));
            }
            if let Some(n) = parse_u32_radix(tail, 10) {
                if n < 32 {
                    return Ok(n);
                }
            }
        }
    }
    Err(AssemblerError::InvalidOperand(describe("Invalid register: ", register)))
}

/// The radix a stripped, unsigned literal is written in, selected by its
/// `0x` / `0b` / `0o` prefix; plain digits are decimal.
pub open spec fn spec_radix_of(u: Seq<char>) -> u32 {
    if u.len() >= 2 && u[0] == '0' && u[1] == 'x' {
        16
    } else if u.len() >= 2 && u[0] == '0' && u[1] == 'b' {
        2
    } else if u.len() >= 2 && u[0] == '0' && u[1] == 'o' {
        8
    } else {
        10
    }
}

/// The digits of a stripped, unsigned literal: everything after the radix
/// prefix, if one is present.
pub open spec fn spec_after_prefix(u: Seq<char>) -> Seq<char> {
    if spec_radix_of(u) == 10 {
        u
    } else {
        u.skip(2)
    }
}

/// What an immediate token denotes. Underscores are stripped first; an
/// optional leading `-` negates; `0x` / `0b` / `0o` select the radix.
/// Decimal magnitudes are capped at `i32::MAX`; hexadecimal, binary and
/// octal values are reinterpreted by two's complement, and negation wraps.
pub open spec fn spec_parse_immediate(s: Seq<char>) -> Option<i32> {
    let t = spec_strip_underscores(s);
    let negative = t.len() > 0 && t[0] == '-';
    let u = if negative {
        t.skip(1)
    } else {
        t
    };
    let radix = spec_radix_of(u);
    match spec_parse_u32_radix(spec_after_prefix(u), radix) {
        None => None,
        Some(v) => if radix == 10 && v > 0x7FFFFFFF {
            None
        } else {
            let w = v as i32;
            Some(
                if negative {
                    if w == i32::MIN {
                        w
                    } else {
                        (-(w as int)) as i32
                    }
                } else {
                    w
                },
            )
        },
    }
}

/// Parse an immediate token in decimal, hexadecimal (`0x`), binary (`0b`)
/// or octal (`0o`), with an optional leading `-` and digit-group
/// underscores. Anything malformed or out of range is `InvalidOperand`.
pub fn parse_immediate(imm: &str) -> (r: Result<i32, AssemblerError>)
    ensures
        match r {
            Ok(v) => spec_parse_immediate(imm@) == Some(v),
            Err(e) => spec_parse_immediate(imm@) is None && e.kind() == ErrorKind::InvalidOperand,
        },
{
    let cs = strip_underscores(imm);
    let ghost t = spec_strip_underscores(imm@);
    let negative = cs.len() > 0 && cs[0] == '-';
    let s0: usize = if negative {
        1
    } else {
        0
    };
    let ghost u = if negative {
        t.skip(1)
    } else {
        t
    };
    proof {
        assert(u =~= cs@.skip(s0 as int));
    }
    let radix: u32;
    let ds: usize;
    if cs.len() >= s0 + 2 && cs[s0] == '0' && cs[s0 + 1] == 'x' {
        radix = 16;
        ds = s0 + 2;
    } else if cs.len() >= s0 + 2 && cs[s0] == '0' && cs[s0 + 1] == 'b' {
        radix = 2;
        ds = s0 + 2;
    } else if cs.len() >= s0 + 2 && cs[s0] == '0' && cs[s0 + 1] == 'o' {
        radix = 8;
        ds = s0 + 2;
    } else {
        radix = 10;
        ds = s0;
    }
    proof {
        assert(radix == spec_radix_of(u));
        assert(spec_after_prefix(u) =~= cs@.skip(ds as int));
    }
    match parse_u32_radix_chars(&cs, ds, radix) {
        None => Err(AssemblerError::InvalidOperand(describe("Invalid immediate: ", imm))),
        Some(v) => {
            if radix == 10 && v > 0x7FFFFFFF {
                Err(AssemblerError::InvalidOperand(describe("Invalid immediate: ", imm)))
            } else {
                let w = #[verifier::truncate] (v as i32);
                if negative {
                    if w == i32::MIN {
                        Ok(w)
                    } else {
                        Ok(-w)
                    }
                } else {
                    Ok(w)
                }
            }
        },
    }
}

/// What an `offset(base)` token denotes: the immediate before the single
/// `(`, and the base register between `(` and a final `)`. Register 0 is
/// hardwired to zero and is rejected as a base.
pub open spec fn spec_parse_offset(s: Seq<char>) -> Result<(i32, u32), SpecError> {
    if !s.contains('(') {
        Err(spec_err(ErrorKind::InvalidOperand))
    } else {
        let i = spec_index_of(s, '(');
        let rest = s.skip(i + 1);
        if rest.contains('(') {
            Err(spec_err(ErrorKind::ParseError))
        } else if rest.len() == 0 || rest.last() != ')' {
            Err(spec_err(ErrorKind::ParseError))
        } else {
            match spec_parse_immediate(s.take(i)) {
                None => Err(spec_err(ErrorKind::InvalidOperand)),
                Some(imm) => match spec_parse_register(rest.drop_last()) {
                    None => Err(spec_err(ErrorKind::InvalidOperand)),
                    Some(reg) => if reg == 0 {
                        Err(spec_err(ErrorKind::InvalidOperand))
                    } else {
                        Ok((imm, reg))
                    },
                },
            }
        }
    }
}

/// Parse the `imm(reg)` memory-operand syntax: exactly one `(`, a closing
/// `)` at the end, and a base register other than register 0.
pub fn parse_offset(offset: &str) -> (r: Result<(i32, u32), AssemblerError>)
    ensures
        match r {
            Ok(p) => spec_parse_offset(offset@) == Ok::<(i32, u32), SpecError>(p),
            Err(e) => spec_parse_offset(offset@) matches Err(se) && err_matches(&e, se),
        },
{
    let n = offset.unicode_len();
    proof {
        lemma_index_of(offset@, '(');
    }
    let open_at = match find_char(offset, '(') {
        None => {
            proof {
                if offset@.contains('(') {
                    let k = choose|k: int| 0 <= k < offset@.len() && offset@[k] == '(';
                    assert(offset@[k] == '(');
                }
            }
            return Err(
                AssemblerError::InvalidOperand(describe("Invalid register: ", offset)),
            );
        },
        Some(i) => i,
    };
    proof {
        assert(offset@.contains('(')) by {
            assert(offset@[open_at as int] == '(');
        }
        assert(spec_index_of(offset@, '(') == open_at as int);
    }
    let ghost rest = offset@.skip(open_at + 1);
    let rs1_str = offset.substring_char(open_at + 1, n);
    proof {
        assert(rs1_str@ =~= rest);
    }
    if let Some(_) = find_char(rs1_str, '(') {
        proof {
            assert(rest.contains('(')) by {
                let k = spec_index_of(rest, '(');
                lemma_index_of(rest, '(');
            }
        }
        return Err(AssemblerError::ParseError(describe("Invalid offset format: ", offset)));
    }
    proof {
        if rest.contains('(') {
            let k = choose|k: int| 0 <= k < rest.len() && rest[k] == '(';
            assert(rest[k] == '(');
        }
    }
    let m = rs1_str.unicode_len();
    if m == 0 || rs1_str.get_char(m - 1) != ')' {
        return Err(AssemblerError::ParseError(describe("Invalid offset format: ", offset)));
    }
    let imm_str = offset.substring_char(0, open_at);
    proof {
        assert(imm_str@ =~= offset@.take(open_at as int));
    }
    let imm = match parse_immediate(imm_str) {
        Ok(v) => v,
        Err(e) => {
            return Err(e);
        },
    };
    let reg_str = rs1_str.substring_char(0, m - 1);
    proof {
        assert(reg_str@ =~= rest.drop_last());
    }
    let rs1 = match parse_register(reg_str) {
        Ok(v) => v,
        Err(e) => {
            return Err(e);
        },
    };
    if rs1 == 0 {
        return Err(AssemblerError::InvalidOperand(describe("Invalid register: ", reg_str)));
    }
    Ok((imm, rs1))
}

/// What a CSR token denotes: an immediate when it parses as one, else the
/// address of a CSR name, looked up case-insensitively.
pub open spec fn spec_parse_csr(s: Seq<char>) -> Option<i32> {
    match spec_parse_immediate(s) {
        Some(v) => Some(v),
        None => match spec_csr_address(spec_lower(s)) {
            Some(a) => Some(a as i32),
            None => None,
        },
    }
}

/// Parse a CSR token: a numeric immediate, or a symbolic CSR name from the
/// CSR table. Anything else is `InvalidOperand`.
pub fn parse_csr(imm: &str) -> (r: Result<i32, AssemblerError>)
    ensures
        match r {
            Ok(v) => spec_parse_csr(imm@) == Some(v),
            Err(e) => spec_parse_csr(imm@) is None && e.kind() == ErrorKind::InvalidOperand,
        },
{
    if let Ok(parsed) = parse_immediate(imm) {
        return Ok(parsed);
    }
    if let Some(addr) = csr_address(imm) {
        return Ok(addr as i32);
    }
    Err(AssemblerError::InvalidOperand(describe("Invalid CSR name or immediate: ", imm)))
}

/// The funct3 field an entry encodes with: its catalog value, or zero.
pub open spec fn spec_funct3(fmt: InstructionFormat) -> u32 {
    fmt.funct3.unwrap_or(0)
}

/// The funct7 field an entry encodes with: its catalog value, or zero.
pub open spec fn spec_funct7(fmt: InstructionFormat) -> u32 {
    fmt.funct7.unwrap_or(0)
}

/// A PC-relative displacement: target address minus current instruction
/// address, with two's-complement wraparound.
pub open spec fn spec_pc_rel(target: u32, current: u32) -> i32 {
    (target as i32).wrapping_sub(current as i32)
}

/// An R-format line: exactly `rd, rs1, rs2`.
pub open spec fn spec_parse_r_type(fmt: InstructionFormat, ops: Seq<Seq<char>>) -> Result<
    u32,
    SpecError,
> {
    if ops.len() != 3 {
        Err(spec_err(ErrorKind::ParseError))
    } else {
        match spec_parse_register(ops[0]) {
            None => Err(spec_err(ErrorKind::InvalidOperand)),
            Some(rd) => match spec_parse_register(ops[1]) {
                None => Err(spec_err(ErrorKind::InvalidOperand)),
                Some(rs1) => match spec_parse_register(ops[2]) {
                    None => Err(spec_err(ErrorKind::InvalidOperand)),
                    Some(rs2) => Ok(
                        spec_encode_r_type(
                            fmt.opcode,
                            rd,
                            spec_funct3(fmt),
                            rs1,
                            rs2,
                            spec_funct7(fmt),
                        ),
                    ),
                },
            },
        }
    }
}

/// An I-format line: `rd, offset(rs1)` with two operands, `rd, rs1, imm`
/// with three. Opcode `0b1110011` (`ecall` / `ebreak`) bypasses operand
/// parsing and encodes fixed zero fields, told apart by funct7.
pub open spec fn spec_parse_i_type(fmt: InstructionFormat, ops: Seq<Seq<char>>) -> Result<
    u32,
    SpecError,
> {
    if fmt.opcode == 0b1110011 && fmt.funct7 == Some(0u32) {
        Ok(spec_encode_i_type(fmt.opcode, 0, spec_funct3(fmt), 0, 0))
    } else if fmt.opcode == 0b1110011 && fmt.funct7 == Some(1u32) {
        Ok(spec_encode_i_type(fmt.opcode, 0, spec_funct3(fmt), 0, 1))
    } else if ops.len() == 2 {
        match spec_parse_register(ops[0]) {
            None => Err(spec_err(ErrorKind::InvalidOperand)),
            Some(rd) => match spec_parse_offset(ops[1]) {
                Err(se) => Err(se),
                Ok((imm, rs1)) => Ok(spec_encode_i_type(fmt.opcode, rd, spec_funct3(fmt), rs1, imm)),
            },
        }
    } else if ops.len() == 3 {
        match spec_parse_register(ops[0]) {
            None => Err(spec_err(ErrorKind::InvalidOperand)),
            Some(rd) => match spec_parse_register(ops[1]) {
                None => Err(spec_err(ErrorKind::InvalidOperand)),
                Some(rs1) => match spec_parse_immediate(ops[2]) {
                    None => Err(spec_err(ErrorKind::InvalidOperand)),
                    Some(imm) => Ok(
                        spec_encode_i_type(fmt.opcode, rd, spec_funct3(fmt), rs1, imm),
                    ),
                },
            },
        }
    } else {
        Err(spec_err(ErrorKind::ParseError))
    }
}

/// An S-format line: exactly `rs2, offset(rs1)`.
pub open spec fn spec_parse_s_type(fmt: InstructionFormat, ops: Seq<Seq<char>>) -> Result<
    u32,
    SpecError,
> {
    if ops.len() != 2 {
        Err(spec_err(ErrorKind::ParseError))
    } else {
        match spec_parse_register(ops[0]) {
            None => Err(spec_err(ErrorKind::InvalidOperand)),
            Some(rs2) => match spec_parse_offset(ops[1]) {
                Err(se) => Err(se),
                Ok((imm, rs1)) => Ok(spec_encode_s_type(fmt.opcode, spec_funct3(fmt), rs1, rs2, imm)),
            },
        }
    }
}

/// A B-format line: exactly `rs1, rs2, target`; the target is an immediate
/// when it parses as one, else a label resolved PC-relative to the
/// instruction's own address. An unknown label is `UndefinedLabel`, named.
pub open spec fn spec_parse_b_type(
    fmt: InstructionFormat,
    ops: Seq<Seq<char>>,
    current_address: u32,
    symbols: Map<Seq<char>, u32>,
) -> Result<u32, SpecError> {
    if ops.len() != 3 {
        Err(spec_err(ErrorKind::ParseError))
    } else {
        match spec_parse_register(ops[0]) {
            None => Err(spec_err(ErrorKind::InvalidOperand)),
            Some(rs1) => match spec_parse_register(ops[1]) {
                None => Err(spec_err(ErrorKind::InvalidOperand)),
                Some(rs2) => match spec_parse_immediate(ops[2]) {
                    Some(off) => Ok(
                        spec_encode_b_type(fmt.opcode, spec_funct3(fmt), rs1, rs2, off),
                    ),
                    None => if symbols.dom().contains(ops[2]) {
                        Ok(
                            spec_encode_b_type(
                                fmt.opcode,
                                spec_funct3(fmt),
                                rs1,
                                rs2,
                                spec_pc_rel(symbols[ops[2]], current_address),
                            ),
                        )
                    } else {
                        Err(spec_undefined_label(ops[2]))
                    },
                },
            },
        }
    }
}

/// A U-format line: exactly `rd, value`; the value is an immediate when it
/// parses as one, else a label resolved to its absolute address.
pub open spec fn spec_parse_u_type(
    fmt: InstructionFormat,
    ops: Seq<Seq<char>>,
    symbols: Map<Seq<char>, u32>,
) -> Result<u32, SpecError> {
    if ops.len() != 2 {
        Err(spec_err(ErrorKind::ParseError))
    } else {
        match spec_parse_register(ops[0]) {
            None => Err(spec_err(ErrorKind::InvalidOperand)),
            Some(rd) => match spec_parse_immediate(ops[1]) {
                Some(imm) => Ok(spec_encode_u_type(fmt.opcode, rd, imm)),
                None => if symbols.dom().contains(ops[1]) {
                    Ok(spec_encode_u_type(fmt.opcode, rd, symbols[ops[1]] as i32))
                } else {
                    Err(spec_undefined_label(ops[1]))
                },
            },
        }
    }
}

/// A J-format line: exactly `rd, target`; the target resolves like a
/// B-format target, PC-relative.
pub open spec fn spec_parse_j_type(
    fmt: InstructionFormat,
    ops: Seq<Seq<char>>,
    current_address: u32,
    symbols: Map<Seq<char>, u32>,
) -> Result<u32, SpecError> {
    if ops.len() != 2 {
        Err(spec_err(ErrorKind::ParseError))
    } else {
        match spec_parse_register(ops[0]) {
            None => Err(spec_err(ErrorKind::InvalidOperand)),
            Some(rd) => match spec_parse_immediate(ops[1]) {
                Some(imm) => Ok(spec_encode_j_type(fmt.opcode, rd, imm)),
                None => if symbols.dom().contains(ops[1]) {
                    Ok(
                        spec_encode_j_type(
                            fmt.opcode,
                            rd,
                            spec_pc_rel(symbols[ops[1]], current_address),
                        ),
                    )
                } else {
                    Err(spec_undefined_label(ops[1]))
                },
            },
        }
    }
}

/// The line dispatcher: holds the instruction catalog and turns one logical
/// source line into its 32-bit words.
pub struct Parser {
    instructions: InstructionSet,
}

impl Parser {
    pub fn new() -> Self {
        Self { instructions: InstructionSet::new() }
    }

    /// Parse an R-format instruction's operands and encode it.
    pub fn parse_r_type(&self, fmt: &InstructionFormat, operands: &[&str]) -> (r: Result<
        u32,
        AssemblerError,
    >)
        ensures
            match r {
                Ok(w) => spec_parse_r_type(*fmt, operands.deep_view()) == Ok::<u32, SpecError>(w),
                Err(e) => spec_parse_r_type(*fmt, operands.deep_view()) matches Err(se)
                    && err_matches(&e, se),
            },
    {
        if operands.len() != 3 {
            return Err(
                AssemblerError::ParseError(
                    expected_note("3", operands.len(), " for an r-type instruction"),
                ),
            );
        }
        let rd = parse_register(operands[0])?;
        let rs1 = parse_register(operands[1])?;
        let rs2 = parse_register(operands[2])?;
        Ok(
            encode_r_type(
                fmt.opcode,
                rd,
                fmt.funct3.unwrap_or(0),
                rs1,
                rs2,
                fmt.funct7.unwrap_or(0),
            ),
        )
    }

    /// Parse an I-format instruction's operands and encode it: the load
    /// form with two operands, the arithmetic form with three, and the
    /// fixed `ecall` / `ebreak` encodings.
    pub fn parse_i_type(&self, fmt: &InstructionFormat, operands: &[&str]) -> (r: Result<
        u32,
        AssemblerError,
    >)
        ensures
            match r {
                Ok(w) => spec_parse_i_type(*fmt, operands.deep_view()) == Ok::<u32, SpecError>(w),
                Err(e) => spec_parse_i_type(*fmt, operands.deep_view()) matches Err(se)
                    && err_matches(&e, se),
            },
    {
        if fmt.opcode == 0b1110011 {
            if let Some(f7) = fmt.funct7 {
                if f7 == 0 {
                    return Ok(encode_i_type(fmt.opcode, 0, fmt.funct3.unwrap_or(0), 0, 0x0));
                } else if f7 == 1 {
                    return Ok(encode_i_type(fmt.opcode, 0, fmt.funct3.unwrap_or(0), 0, 0x1));
                }
            }
        }
        if operands.len() == 2 {
            let rd = parse_register(operands[0])?;
            let (imm, rs1) = parse_offset(operands[1])?;
            Ok(encode_i_type(fmt.opcode, rd, fmt.funct3.unwrap_or(0), rs1, imm))
        } else if operands.len() == 3 {
            let rd = parse_register(operands[0])?;
            let rs1 = parse_register(operands[1])?;
            let imm = parse_immediate(operands[2])?;
            Ok(encode_i_type(fmt.opcode, rd, fmt.funct3.unwrap_or(0), rs1, imm))
        } else {
            Err(
                AssemblerError::ParseError(
                    expected_note("2 or 3", operands.len(), " for an i-type instruction"),
                ),
            )
        }
    }

    /// Parse an S-format instruction's operands and encode it.
    pub fn parse_s_type(&self, fmt: &InstructionFormat, operands: &[&str]) -> (r: Result<
        u32,
        AssemblerError,
    >)
        ensures
            match r {
                Ok(w) => spec_parse_s_type(*fmt, operands.deep_view()) == Ok::<u32, SpecError>(w),
                Err(e) => spec_parse_s_type(*fmt, operands.deep_view()) matches Err(se)
                    && err_matches(&e, se),
            },
    {
        if operands.len() != 2 {
            return Err(
                AssemblerError::ParseError(
                    expected_note("2", operands.len(), " for an s-type instruction"),
                ),
            );
        }
        let rs2 = parse_register(operands[0])?;
        let (imm, rs1) = parse_offset(operands[1])?;
        Ok(encode_s_type(fmt.opcode, fmt.funct3.unwrap_or(0), rs1, rs2, imm))
    }

    /// Parse a B-format instruction's operands and encode it, resolving a
    /// label target PC-relative to `current_address`.
    pub fn parse_b_type(
        &self,
        fmt: &InstructionFormat,
        operands: &[&str],
        current_address: u32,
        symbols: &SymbolTable,
    ) -> (r: Result<u32, AssemblerError>)
        ensures
            match r {
                Ok(w) => spec_parse_b_type(*fmt, operands.deep_view(), current_address, symbols@)
                    == Ok::<u32, SpecError>(w),
                Err(e) => spec_parse_b_type(*fmt, operands.deep_view(), current_address, symbols@)
                    matches Err(se) && err_matches(&e, se),
            },
    {
        if operands.len() != 3 {
            return Err(
                AssemblerError::ParseError(
                    expected_note("3", operands.len(), " for a b-type instruction"),
                ),
            );
        }
        let rs1 = parse_register(operands[0])?;
        let rs2 = parse_register(operands[1])?;
        let offset = match parse_immediate(operands[2]) {
            Ok(immediate) => immediate,
            Err(_) => {
                match symbols.get(operands[2]) {
                    Some(target_address) => pc_relative(target_address, current_address),
                    None => {
                        return Err(AssemblerError::UndefinedLabel(operands[2].to_owned()));
                    },
                }
            },
        };
        Ok(encode_b_type(fmt.opcode, fmt.funct3.unwrap_or(0), rs1, rs2, offset))
    }

    /// Parse a U-format instruction's operands and encode it, resolving a
    /// label operand to its absolute address.
    pub fn parse_u_type(
        &self,
        fmt: &InstructionFormat,
        operands: &[&str],
        symbols: &SymbolTable,
    ) -> (r: Result<u32, AssemblerError>)
        ensures
            match r {
                Ok(w) => spec_parse_u_type(*fmt, operands.deep_view(), symbols@) == Ok::<
                    u32,
                    SpecError,
                >(w),
                Err(e) => spec_parse_u_type(*fmt, operands.deep_view(), symbols@) matches Err(se)
                    && err_matches(&e, se),
            },
    {
        if operands.len() != 2 {
            return Err(
                AssemblerError::ParseError(
                    expected_note("2", operands.len(), " for a u-type instruction"),
                ),
            );
        }
        let rd = parse_register(operands[0])?;
        let imm = match parse_immediate(operands[1]) {
            Ok(immediate) => immediate,
            Err(_) => {
                match symbols.get(operands[1]) {
                    Some(target_address) => #[verifier::truncate] (target_address as i32),
                    None => {
                        return Err(AssemblerError::UndefinedLabel(operands[1].to_owned()));
                    },
                }
            },
        };
        Ok(encode_u_type(fmt.opcode, rd, imm))
    }

    /// Parse a J-format instruction's operands and encode it, resolving a
    /// label target PC-relative to `current_address`.
    pub fn parse_j_type(
        &self,
        fmt: &InstructionFormat,
        operands: &[&str],
        current_address: u32,
        symbols: &SymbolTable,
    ) -> (r: Result<u32, AssemblerError>)
        ensures
            match r {
                Ok(w) => spec_parse_j_type(*fmt, operands.deep_view(), current_address, symbols@)
                    == Ok::<u32, SpecError>(w),
                Err(e) => spec_parse_j_type(*fmt, operands.deep_view(), current_address, symbols@)
                    matches Err(se) && err_matches(&e, se),
            },
    {
        if operands.len() != 2 {
            return Err(
                AssemblerError::ParseError(
                    expected_note("2", operands.len(), " for a j-type instruction"),
                ),
            );
        }
        let rd = parse_register(operands[0])?;
        let imm = match parse_immediate(operands[1]) {
            Ok(immediate) => immediate,
            Err(_) => {
                match symbols.get(operands[1]) {
                    Some(target_address) => pc_relative(target_address, current_address),
                    None => {
                        return Err(AssemblerError::UndefinedLabel(operands[1].to_owned()));
                    },
                }
            },
        };
        Ok(encode_j_type(fmt.opcode, rd, imm))
    }
}

/// The radix prefix an immediate literal carries: `0x`, `0b`, `0o`, and
/// none for decimal.
pub open spec fn spec_radix_prefix(radix: u32) -> Seq<char> {
    if radix == 16 {
        seq!['0', 'x']
    } else if radix == 2 {
        seq!['0', 'b']
    } else if radix == 8 {
        seq!['0', 'o']
    } else {
        Seq::empty()
    }
}

/// The canonical literal for magnitude `v` under `radix`: an optional
/// sign, the radix prefix, then the canonical digits.
pub open spec fn spec_canonical_literal(v: u32, radix: u32, neg: bool) -> Seq<char> {
    (if neg {
        seq!['-']
    } else {
        Seq::empty()
    }) + spec_radix_prefix(radix) + spec_u32_radix_str(v, radix)
}

/// Parsing the canonical literal of a magnitude gives back that magnitude,
/// negated when signed, in every supported radix (decimal magnitudes are
/// capped at `i32::MAX` by the parser).
pub proof fn lemma_parse_canonical(v: u32, radix: u32, neg: bool)
    requires
        radix == 2 || radix == 8 || radix == 10 || radix == 16,
        radix == 10 ==> v <= 0x7FFFFFFF,
    ensures
        spec_parse_immediate(spec_canonical_literal(v, radix, neg)) == Some(
            {
                let w = v as i32;
                if neg {
                    if w == i32::MIN {
                        w
                    } else {
                        (-(w as int)) as i32
                    }
                } else {
                    w
                }
            },
        ),
{
    let digits = spec_u32_radix_str(v, radix);
    let body = spec_radix_prefix(radix) + digits;
    let s = spec_canonical_literal(v, radix, neg);
    lemma_radix_str_chars(v, radix);
    lemma_radix_round_trip(v, radix);
    assert(digits.len() >= 1);
    assert forall|j: int| 0 <= j < s.len() implies s[j] != '_' by {
        if neg {
            if j >= 1 + spec_radix_prefix(radix).len() {
                assert(s[j] == digits[j - 1 - spec_radix_prefix(radix).len()]);
            }
        } else {
            if j >= spec_radix_prefix(radix).len() {
                assert(s[j] == digits[j - spec_radix_prefix(radix).len()]);
            }
        }
    }
    lemma_no_underscores(s);
    let t = spec_strip_underscores(s);
    assert(t == s);
    if neg {
        assert(s[0] == '-');
        assert(t.skip(1) =~= body);
    } else {
        assert(s =~= body);
        assert(body[0] != '-') by {
            if radix == 10 {
                assert(body[0] == digits[0]);
            }
        }
    }
    let u = if t.len() > 0 && t[0] == '-' {
        t.skip(1)
    } else {
        t
    };
    assert(u == body);
    assert forall|j: int| 0 <= j < digits.len() implies body[
        spec_radix_prefix(radix).len() + j
    ] == digits[j] by {}
    if radix == 10 {
        assert(body =~= digits);
        if body.len() >= 2 {
            assert(body[1] == digits[1]);
            assert(body[1] != 'x' && body[1] != 'b' && body[1] != 'o');
        }
        assert(spec_radix_of(u) == 10);
        assert(spec_after_prefix(u) == digits);
    } else {
        assert(body[0] == '0');
        assert(body[1] == spec_radix_prefix(radix)[1]);
        assert(spec_radix_of(u) == radix);
        assert(spec_after_prefix(u) =~= digits);
    }
    assert(spec_parse_u32_radix(digits, radix) == Some(v));
}

/// Parsing back the signed decimal text the expander writes for a value
/// gives that value again.
pub proof fn lemma_parse_i32_dec(v: i32)
    requires
        v != i32::MIN,
    ensures
        spec_parse_immediate(spec_i32_dec(v)) == Some(v),
{
    if v < 0 {
        let m = (-(v as int)) as u32;
        lemma_parse_canonical(m, 10, true);
        assert(spec_i32_dec(v) =~= spec_canonical_literal(m, 10, true));
    } else {
        lemma_parse_canonical(v as u32, 10, false);
        assert(spec_i32_dec(v) =~= spec_canonical_literal(v as u32, 10, false));
    }
}

/// Immediate literals of one magnitude and sign agree across radices: the
/// decimal, hexadecimal, binary and octal spellings of a value all parse
/// to the same immediate.
pub proof fn lemma_immediate_radix_agreement(v: u32, neg: bool)
    requires
        v <= 0x7FFFFFFF,
    ensures
        spec_parse_immediate(spec_canonical_literal(v, 10, neg)) == Some(
            if neg {
                (-(v as int)) as i32
            } else {
                v as i32
            },
        ),
        spec_parse_immediate(spec_canonical_literal(v, 16, neg)) == spec_parse_immediate(
            spec_canonical_literal(v, 10, neg),
        ),
        spec_parse_immediate(spec_canonical_literal(v, 2, neg)) == spec_parse_immediate(
            spec_canonical_literal(v, 10, neg),
        ),
        spec_parse_immediate(spec_canonical_literal(v, 8, neg)) == spec_parse_immediate(
            spec_canonical_literal(v, 10, neg),
        ),
{
    lemma_parse_canonical(v, 10, neg);
    lemma_parse_canonical(v, 16, neg);
    lemma_parse_canonical(v, 2, neg);
    lemma_parse_canonical(v, 8, neg);
}

/// Register tokens agree across syntaxes: for every register number `n`,
/// both `x<n>` and `$<n>` parse to `n`; and each ABI name maps to its
/// fixed documented number, as `zero`, `ra` and `a0` illustrate.
pub proof fn lemma_register_forms(n: u32)
    requires
        n < 32,
    ensures
        spec_parse_register(seq!['x'] + spec_u32_dec(n)) == Some(n),
        spec_parse_register(seq!['$'] + spec_u32_dec(n)) == Some(n),
        spec_parse_register("zero"@) == Some(0u32),
        spec_parse_register("ra"@) == Some(1u32),
        spec_parse_register("a0"@) == Some(10u32),
{
    let d = spec_u32_dec(n);
    lemma_radix_str_chars(n, 10);
    lemma_radix_round_trip(n, 10);
    reveal_strlit("zero");
    reveal_strlit("ra");
    reveal_strlit("sp");
    reveal_strlit("gp");
    reveal_strlit("tp");
    reveal_strlit("t0");
    reveal_strlit("t1");
    reveal_strlit("t2");
    reveal_strlit("fp");
    reveal_strlit("s0");
    reveal_strlit("s1");
    reveal_strlit("a0");
    reveal_strlit("a1");
    reveal_strlit("a2");
    reveal_strlit("a3");
    reveal_strlit("a4");
    reveal_strlit("a5");
    reveal_strlit("a6");
    reveal_strlit("a7");
    reveal_strlit("s2");
    reveal_strlit("s3");
    reveal_strlit("s4");
    reveal_strlit("s5");
    reveal_strlit("s6");
    reveal_strlit("s7");
    reveal_strlit("s8");
    reveal_strlit("s9");
    reveal_strlit("s10");
    reveal_strlit("s11");
    reveal_strlit("t3");
    reveal_strlit("t4");
    reveal_strlit("t5");
    reveal_strlit("t6");
    let sx = seq!['x'] + d;
    let sd = seq!['$'] + d;
    assert forall|j: int| 0 <= j < sx.len() implies lower_char(sx[j]) == sx[j] by {
        if j >= 1 {
            assert(sx[j] == d[j - 1]);
        }
    }
    assert forall|j: int| 0 <= j < sd.len() implies lower_char(sd[j]) == sd[j] by {
        if j >= 1 {
            assert(sd[j] == d[j - 1]);
        }
    }
    lemma_lower_identity(sx);
    lemma_lower_identity(sd);
    assert(sx[0] == 'x' && sd[0] == '$');
    assert(spec_abi_register(sx) is None);
    assert(spec_abi_register(sd) is None);
    assert(sx.skip(1) =~= d);
    assert(sd.skip(1) =~= d);
    assert(spec_lower("zero"@) =~= "zero"@);
    assert(spec_lower("ra"@) =~= "ra"@);
    assert(spec_lower("a0"@) =~= "a0"@);
    assert("a0"@ != "zero"@ && "a0"@ != "ra"@ && "a0"@ != "sp"@ && "a0"@ != "gp"@ && "a0"@
        != "tp"@ && "a0"@ != "t0"@ && "a0"@ != "t1"@ && "a0"@ != "t2"@ && "a0"@ != "fp"@ && "a0"@
        != "s0"@ && "a0"@ != "s1"@) by {
        assert("a0"@[0] == 'a');
        assert("zero"@.len() == 4);
        assert("ra"@[0] == 'r');
        assert("sp"@[0] == 's');
        assert("gp"@[0] == 'g');
        assert("tp"@[0] == 't');
        assert("t0"@[0] == 't');
        assert("t1"@[0] == 't');
        assert("t2"@[0] == 't');
        assert("fp"@[0] == 'f');
        assert("s0"@[0] == 's');
        assert("s1"@[0] == 's');
    }
    assert(spec_abi_register("a0"@) == Some(10u32));
}

/// Mnemonics that are complete without operands.
pub open spec fn spec_no_operand_mnemonic(m: Seq<char>) -> bool {
    m == "nop"@ || m == "ret"@ || m == "ecall"@ || m == "ebreak"@
}

fn no_operand_mnemonic(m: &str) -> (r: bool)
    ensures
        r == spec_no_operand_mnemonic(m@),
{
    str_eq(m, "nop") || str_eq(m, "ret") || str_eq(m, "ecall") || str_eq(m, "ebreak")
}

/// The address of the `idx`-th word a line expands to: the line's own
/// address plus four bytes per preceding word, with wraparound.
pub open spec fn spec_instr_addr(base: u32, idx: nat) -> u32 {
    ((base + 4 * idx) % 0x100000000) as u32
}

/// Encode one base instruction at its own address, by its catalog shape.
pub open spec fn spec_dispatch(
    fmt: InstructionFormat,
    ops: Seq<Seq<char>>,
    addr: u32,
    symbols: Map<Seq<char>, u32>,
) -> Result<u32, SpecError> {
    match fmt.fmt {
        InstructionType::R => spec_parse_r_type(fmt, ops),
        InstructionType::I => spec_parse_i_type(fmt, ops),
        InstructionType::S => spec_parse_s_type(fmt, ops),
        InstructionType::B => spec_parse_b_type(fmt, ops, addr, symbols),
        InstructionType::U => spec_parse_u_type(fmt, ops, symbols),
        InstructionType::J => spec_parse_j_type(fmt, ops, addr, symbols),
    }
}

/// Encode one rewritten instruction at its own address: catalog lookup,
/// then the shape's own parse.
pub open spec fn spec_encode_record(
    rec: SpecTranslated,
    addr: u32,
    symbols: Map<Seq<char>, u32>,
) -> Result<u32, SpecError> {
    match spec_get_instruction(rec.mnemonic) {
        None => Err(spec_err(ErrorKind::InvalidInstruction)),
        Some(f) => spec_dispatch(f, rec.operands, addr, symbols),
    }
}

/// Encode the records of an expansion from `idx` on, each at its own
/// address; the first error wins.
pub open spec fn spec_encode_records(
    recs: Seq<SpecTranslated>,
    base: u32,
    idx: nat,
    symbols: Map<Seq<char>, u32>,
) -> Result<Seq<u32>, SpecError>
    decreases recs.len() - idx,
{
    if idx >= recs.len() {
        Ok(Seq::empty())
    } else {
        match spec_encode_record(recs[idx as int], spec_instr_addr(base, idx), symbols) {
            Err(se) => Err(se),
            Ok(w) => match spec_encode_records(recs, base, idx + 1, symbols) {
                Err(se) => Err(se),
                Ok(rest) => Ok(seq![w] + rest),
            },
        }
    }
}

/// What one logical source line assembles to at `current_address`: the
/// comment is cut at `#`, a label prefix up to `:` is dropped, and the
/// rest, if any, is tokenized into a mnemonic and operands, expanded if the
/// mnemonic is a pseudo-instruction, and encoded shape by shape.
#[verifier::opaque]
pub open spec fn spec_parse_line(
    line: Seq<char>,
    current_address: u32,
    symbols: Map<Seq<char>, u32>,
) -> Result<Seq<u32>, SpecError> {
    let code = spec_trim(line.take(spec_index_of(line, '#')));
    if code.len() == 0 {
        Ok(Seq::empty())
    } else {
        let stmt = if code.contains(':') {
            spec_trim(code.skip(spec_index_of(code, ':') + 1))
        } else {
            code
        };
        if stmt.len() == 0 {
            Ok(Seq::empty())
        } else {
            let toks = spec_tokens(stmt);
            let m = toks[0];
            let ops = toks.skip(1);
            if ops.len() == 0 && !spec_no_operand_mnemonic(m) {
                Err(spec_err(ErrorKind::ParseError))
            } else if spec_is_pseudo(m) {
                match spec_expand(m, ops) {
                    Err(se) => Err(se),
                    Ok(recs) => spec_encode_records(recs, current_address, 0, symbols),
                }
            } else {
                match spec_get_instruction(m) {
                    None => Err(spec_err(ErrorKind::InvalidInstruction)),
                    Some(f) => match spec_dispatch(f, ops, current_address, symbols) {
                        Err(se) => Err(se),
                        Ok(w) => Ok(seq![w]),
                    },
                }
            }
        }
    }
}

impl Parser {
    /// Encode one rewritten instruction at its own address.
    fn encode_translated(
        &self,
        instr: &TranslatedInstruction,
        addr: u32,
        symbols: &SymbolTable,
    ) -> (r: Result<u32, AssemblerError>)
        ensures
            match r {
                Ok(w) => spec_encode_record(instr@, addr, symbols@) == Ok::<u32, SpecError>(w),
                Err(e) => spec_encode_record(instr@, addr, symbols@) matches Err(se) && err_matches(
                    &e,
                    se,
                ),
            },
    {
        let mut instr_operands: Vec<&str> = Vec::new();
        let mut j: usize = 0;
        while j < instr.operands.len()
            invariant
                j <= instr.operands@.len(),
                instr_operands@.len() == j,
                forall|q: int| 0 <= q < j ==> instr_operands@[q]@ == instr.operands@[q]@,
            decreases instr.operands@.len() - j,
        {
            instr_operands.push(instr.operands[j].as_str());
            j += 1;
        }
        proof {
            assert forall|q: int| 0 <= q < instr_operands.deep_view().len() implies
                instr_operands.deep_view()[q] == instr@.operands[q] by {
                assert(instr_operands@[q]@ == instr.operands@[q]@);
            }
            assert(instr_operands.deep_view() =~= instr@.operands);
        }
        let instr_format = match self.instructions.get_instruction(instr.mnemonic) {
            Some(f) => f,
            None => {
                return Err(AssemblerError::InvalidInstruction(instr.mnemonic.to_owned()));
            },
        };
        match instr_format.fmt {
            InstructionType::R => self.parse_r_type(&instr_format, instr_operands.as_slice()),
            InstructionType::I => self.parse_i_type(&instr_format, instr_operands.as_slice()),
            InstructionType::S => self.parse_s_type(&instr_format, instr_operands.as_slice()),
            InstructionType::B => self.parse_b_type(
                &instr_format,
                instr_operands.as_slice(),
                addr,
                symbols,
            ),
            InstructionType::U => self.parse_u_type(&instr_format, instr_operands.as_slice(), symbols),
            InstructionType::J => self.parse_j_type(
                &instr_format,
                instr_operands.as_slice(),
                addr,
                symbols,
            ),
        }
    }

    /// Assemble one logical source line into its 32-bit words: zero words
    /// for a blank or label-only line, one per base instruction otherwise.
    #[verifier::rlimit(100)]
    pub fn parse_line(
        &self,
        line: &str,
        current_address: u32,
        symbols: &SymbolTable,
    ) -> (r: Result<Vec<u32>, AssemblerError>)
        ensures
            match r {
                Ok(v) => spec_parse_line(line@, current_address, symbols@) == Ok::<
                    Seq<u32>,
                    SpecError,
                >(v@),
                Err(e) => spec_parse_line(line@, current_address, symbols@) matches Err(se)
                    && err_matches(&e, se),
            },
    {
        proof {
            reveal(spec_parse_line);
        }
        let n = line.unicode_len();
        proof {
            lemma_index_of(line@, '#');
        }
        let hash = match find_char(line, '#') {
            Some(i) => i,
            None => n,
        };
        proof {
            assert(spec_index_of(line@, '#') == hash as int);
        }
        let before = line.substring_char(0, hash);
        let code = trim(before);
        proof {
            assert(before@ =~= line@.take(spec_index_of(line@, '#')));
        }
        if code.unicode_len() == 0 {
            return Ok(Vec::new());
        }
        proof {
            lemma_index_of(code@, ':');
        }
        let stmt: &str = match find_char(code, ':') {
            Some(ci) => {
                proof {
                    assert(code@.contains(':')) by {
                        assert(code@[ci as int] == ':');
                    }
                    assert(spec_index_of(code@, ':') == ci as int);
                }
                let after_label = code.substring_char(ci + 1, code.unicode_len());
                proof {
                    assert(after_label@ =~= code@.skip(spec_index_of(code@, ':') + 1));
                }
                let after = trim(after_label);
                if after.unicode_len() == 0 {
                    return Ok(Vec::new());
                }
                proof {
                    lemma_trim_head(after_label@);
                }
                after
            },
            None => {
                proof {
                    if code@.contains(':') {
                        let k = choose|k: int| 0 <= k < code@.len() && code@[k] == ':';
                        assert(code@[k] == ':');
                    }
                    lemma_trim_head(before@);
                }
                code
            },
        };
        let ghost stmt_s = if code@.contains(':') {
            spec_trim(code@.skip(spec_index_of(code@, ':') + 1))
        } else {
            code@
        };
        proof {
            assert(stmt@ == stmt_s);
            assert(stmt@.len() > 0 && !is_space(stmt@[0]));
        }
        let toks = tokenize(stmt);
        proof {
            lemma_tokens_nonempty(stmt@);
        }
        let mnemonic: &str = toks[0];
        let mut ops: Vec<&str> = Vec::new();
        let mut k: usize = 1;
        while k < toks.len()
            invariant
                1 <= k <= toks@.len(),
                ops@ =~= toks@.subrange(1, k as int),
            decreases toks@.len() - k,
        {
            ops.push(toks[k]);
            k += 1;
        }
        proof {
            assert forall|j: int| 0 <= j < ops.deep_view().len() implies ops.deep_view()[j]
                == toks.deep_view().skip(1)[j] by {
                assert(ops@[j] == toks@[j + 1]);
            }
            assert(ops.deep_view() =~= toks.deep_view().skip(1));
        }
        if ops.len() == 0 && !no_operand_mnemonic(mnemonic) {
            return Err(AssemblerError::ParseError("Missing operands".to_owned()));
        }
        if PseudoInstructions::is_pseudo_instruction(mnemonic) {
            let translated = match PseudoInstructions::expand(mnemonic, ops.as_slice()) {
                Ok(t) => t,
                Err(e) => {
                    return Err(e);
                },
            };
            let ghost recs = translated.deep_view();
            proof {
                lemma_expand_len(mnemonic@, ops.deep_view());
                assert(mnemonic@ == spec_tokens(stmt@)[0]);
                assert(ops.deep_view() == spec_tokens(stmt@).skip(1));
                assert(spec_parse_line(line@, current_address, symbols@) == spec_encode_records(
                    recs,
                    current_address,
                    0,
                    symbols@,
                ));
            }
            let mut result: Vec<u32> = Vec::new();
            let mut idx: usize = 0;
            proof {
                assert(result@ + spec_encode_records(recs, current_address, 0, symbols@)->Ok_0
                    =~= spec_encode_records(recs, current_address, 0, symbols@)->Ok_0);
            }
            while idx < translated.len()
                invariant
                    idx <= translated@.len(),
                    recs == translated.deep_view(),
                    recs.len() == translated@.len(),
                    recs.len() <= 2,
                    spec_parse_line(line@, current_address, symbols@) == spec_encode_records(
                        recs,
                        current_address,
                        0,
                        symbols@,
                    ),
                    match spec_encode_records(recs, current_address, idx as nat, symbols@) {
                        Ok(rest) => spec_encode_records(recs, current_address, 0, symbols@) == Ok::<
                            Seq<u32>,
                            SpecError,
                        >(result@ + rest),
                        Err(se) => spec_encode_records(recs, current_address, 0, symbols@) == Err::<
                            Seq<u32>,
                            SpecError,
                        >(se),
                    },
                decreases translated@.len() - idx,
            {
                let instr = &translated[idx];
                proof {
                    assert(instr@ == recs[idx as int]);
                }
                let instr_address = current_address.wrapping_add((idx as u32) * 4);
                proof {
                    assert(instr_address == spec_instr_addr(current_address, idx as nat));
                }
                let word = match self.encode_translated(instr, instr_address, symbols) {
                    Ok(w) => w,
                    Err(e) => {
                        return Err(e);
                    },
                };
                let ghost old_result = result@;
                result.push(word);
                proof {
                    let rest_next = spec_encode_records(
                        recs,
                        current_address,
                        (idx + 1) as nat,
                        symbols@,
                    );
                    if rest_next is Ok {
                        assert(old_result + (seq![word] + rest_next->Ok_0) =~= result@
                            + rest_next->Ok_0);
                    }
                }
                idx += 1;
            }
            proof {
                assert(result@ + Seq::<u32>::empty() =~= result@);
            }
            return Ok(result);
        }
        let instr = match self.instructions.get_instruction(mnemonic) {
            Some(f) => f,
            None => {
                return Err(AssemblerError::InvalidInstruction(mnemonic.to_owned()));
            },
        };
        let parsed = match instr.fmt {
            InstructionType::R => self.parse_r_type(&instr, ops.as_slice()),
            InstructionType::I => self.parse_i_type(&instr, ops.as_slice()),
            InstructionType::S => self.parse_s_type(&instr, ops.as_slice()),
            InstructionType::B => self.parse_b_type(&instr, ops.as_slice(), current_address, symbols),
            InstructionType::U => self.parse_u_type(&instr, ops.as_slice(), symbols),
            InstructionType::J => self.parse_j_type(&instr, ops.as_slice(), current_address, symbols),
        };
        let word = match parsed {
            Ok(w) => w,
            Err(e) => {
                return Err(e);
            },
        };
        let mut result: Vec<u32> = Vec::new();
        result.push(word);
        proof {
            assert(result@ =~= seq![word]);
        }
        Ok(result)
    }
}

/// A successful encoding of an expansion's records yields one word per
/// record not yet encoded.
pub proof fn lemma_encode_records_len(
    recs: Seq<SpecTranslated>,
    base: u32,
    idx: nat,
    symbols: Map<Seq<char>, u32>,
)
    requires
        idx <= recs.len(),
    ensures
        spec_encode_records(recs, base, idx, symbols) matches Ok(ws) ==> ws.len() == recs.len()
            - idx,
    decreases recs.len() - idx,
{
    if idx < recs.len() {
        lemma_encode_records_len(recs, base, idx + 1, symbols);
    }
}

/// A line assembles to at most two words: one per base instruction, and no
/// pseudo-instruction rewrites to more than two.
pub proof fn lemma_parse_line_len(line: Seq<char>, current_address: u32, symbols: Map<Seq<char>, u32>)
    ensures
        spec_parse_line(line, current_address, symbols) matches Ok(ws) ==> ws.len() <= 2,
{
    reveal(spec_parse_line);
    let r = spec_parse_line(line, current_address, symbols);
    if r is Ok {
        let code = spec_trim(line.take(spec_index_of(line, '#')));
        if code.len() != 0 {
            let stmt = if code.contains(':') {
                spec_trim(code.skip(spec_index_of(code, ':') + 1))
            } else {
                code
            };
            if stmt.len() != 0 {
                let toks = spec_tokens(stmt);
                let m = toks[0];
                let ops = toks.skip(1);
                if !(ops.len() == 0 && !spec_no_operand_mnemonic(m)) && spec_is_pseudo(m) {
                    lemma_expand_len(m, ops);
                    let er = spec_expand(m, ops);
                    if er is Ok {
                        lemma_encode_records_len(er->Ok_0, current_address, 0, symbols);
                    }
                }
            }
        }
    }
}

/// A dispatch whose target operand parses as an immediate never consults
/// the symbol table: its outcome is the same under any two tables.
pub proof fn lemma_dispatch_symbol_free(
    fmt: InstructionFormat,
    ops: Seq<Seq<char>>,
    addr: u32,
    sym1: Map<Seq<char>, u32>,
    sym2: Map<Seq<char>, u32>,
)
    requires
        ops.len() == 2 ==> spec_parse_immediate(ops[1]) is Some,
        ops.len() == 3 ==> spec_parse_immediate(ops[2]) is Some,
    ensures
        spec_dispatch(fmt, ops, addr, sym1) == spec_dispatch(fmt, ops, addr, sym2),
{
}

/// Encoding a rewritten instruction whose target operand parses as an
/// immediate gives the same outcome under any two symbol tables.
pub proof fn lemma_encode_record_symbol_free(
    rec: SpecTranslated,
    addr: u32,
    sym1: Map<Seq<char>, u32>,
    sym2: Map<Seq<char>, u32>,
)
    requires
        rec.operands.len() == 2 ==> spec_parse_immediate(rec.operands[1]) is Some,
        rec.operands.len() == 3 ==> spec_parse_immediate(rec.operands[2]) is Some,
    ensures
        spec_encode_record(rec, addr, sym1) == spec_encode_record(rec, addr, sym2),
{
    let entry = spec_get_instruction(rec.mnemonic);
    if entry is Some {
        lemma_dispatch_symbol_free(entry->Some_0, rec.operands, addr, sym1, sym2);
    }
}

/// The two statements a labeled line gives the two passes parse alike:
/// when a comment-free, trimmed line carries a label and its remainder
/// carries no further colon, parsing the whole line equals parsing the
/// remainder — the dispatcher strips the label itself.
pub proof fn lemma_parse_line_strips_label(
    line: Seq<char>,
    addr: u32,
    symbols: Map<Seq<char>, u32>,
)
    requires
        forall|j: int| 0 <= j < line.len() ==> line[j] != '#',
        spec_trim(line) == line,
        line.len() > 0,
        line.contains(':'),
        !spec_trim(line.skip(spec_index_of(line, ':') + 1)).contains(':'),
    ensures
        spec_parse_line(line, addr, symbols) == spec_parse_line(
            spec_trim(line.skip(spec_index_of(line, ':') + 1)),
            addr,
            symbols,
        ),
{
    reveal(spec_parse_line);
    lemma_index_of(line, '#');
    assert(spec_index_of(line, '#') == line.len());
    assert(line.take(spec_index_of(line, '#')) =~= line);
    lemma_index_of(line, ':');
    let ci = spec_index_of(line, ':');
    let stmt = spec_trim(line.skip(ci + 1));
    // the statement inherits the absence of '#'
    assert(forall|j: int|
        0 <= j < line.skip(ci + 1).len() ==> #[trigger] line.skip(ci + 1)[j] == line[j + ci + 1]);
    lemma_trim_chars(line.skip(ci + 1), '#');
    lemma_index_of(stmt, '#');
    assert(spec_index_of(stmt, '#') == stmt.len()) by {
        if spec_index_of(stmt, '#') < stmt.len() {
            assert(stmt[spec_index_of(stmt, '#')] == '#');
        }
    }
    assert(stmt.take(spec_index_of(stmt, '#')) =~= stmt);
    lemma_trim_idempotent(line.skip(ci + 1));
    assert(spec_trim(stmt) == stmt);
    if stmt.len() > 0 {
        lemma_index_of(stmt, ':');
    }
}

/// Width stability: at one address, a line that parses under two symbol
/// tables yields the same number of words under both; and a line the full
/// table accepts but the empty table cannot resolve is exactly one word.
/// This is what lets the first pass lay out addresses before any label is
/// known.
#[verifier::rlimit(100)]
#[verifier::spinoff_prover]
pub proof fn lemma_parse_line_width_stable(
    s: Seq<char>,
    addr: u32,
    sym1: Map<Seq<char>, u32>,
    sym2: Map<Seq<char>, u32>,
)
    ensures
        spec_parse_line(s, addr, sym1) is Ok && spec_parse_line(s, addr, sym2) is Ok
            ==> spec_parse_line(s, addr, sym1)->Ok_0.len() == spec_parse_line(
            s,
            addr,
            sym2,
        )->Ok_0.len(),
        spec_parse_line(s, addr, sym2) is Ok && spec_parse_line(s, addr, sym1) is Err
            ==> spec_parse_line(s, addr, sym2)->Ok_0.len() == 1,
{
    reveal(spec_parse_line);
    let code = spec_trim(s.take(spec_index_of(s, '#')));
    if code.len() != 0 {
        let stmt = if code.contains(':') {
            spec_trim(code.skip(spec_index_of(code, ':') + 1))
        } else {
            code
        };
        if stmt.len() != 0 {
            let toks = spec_tokens(stmt);
            let m = toks[0];
            let ops = toks.skip(1);
            if !(ops.len() == 0 && !spec_no_operand_mnemonic(m)) && spec_is_pseudo(m) {
                let er = spec_expand(m, ops);
                if er is Ok {
                    let recs = er->Ok_0;
                    lemma_expand_len(m, ops);
                    lemma_encode_records_len(recs, addr, 0, sym1);
                    lemma_encode_records_len(recs, addr, 0, sym2);
                    if recs.len() == 2 {
                        // only a wide `li` rewrites to two records, and its
                        // operand tokens are the decimals the split wrote
                        assert(m == "li"@);
                        let imm = spec_parse_immediate(ops[1])->Some_0;
                        assert(spec_translate_li(ops) == Ok::<Seq<SpecTranslated>, SpecError>(
                            recs,
                        ));
                        assert(spec_parse_immediate(ops[1]) == Some(imm));
                        assert(recs[0] == spec_rec(
                            "lui"@,
                            seq![ops[0], spec_i32_dec(spec_li_upper(imm))],
                        ));
                        assert(recs[1] == spec_rec(
                            "addi"@,
                            seq![ops[0], ops[0], spec_i32_dec(spec_li_lower(imm))],
                        ));
                        lemma_li_round_trip(imm);
                        lemma_parse_i32_dec(spec_li_upper(imm));
                        lemma_parse_i32_dec(spec_li_lower(imm));
                        lemma_encode_record_symbol_free(recs[0], spec_instr_addr(addr, 0), sym1, sym2);
                        lemma_encode_record_symbol_free(recs[1], spec_instr_addr(addr, 1), sym1, sym2);
                        assert(spec_encode_records(recs, addr, 2, sym1) == spec_encode_records(
                            recs,
                            addr,
                            2,
                            sym2,
                        ));
                        assert(spec_encode_records(recs, addr, 1, sym1) == spec_encode_records(
                            recs,
                            addr,
                            1,
                            sym2,
                        ));
                        assert(spec_encode_records(recs, addr, 0, sym1) == spec_encode_records(
                            recs,
                            addr,
                            0,
                            sym2,
                        ));
                    }
                }
            }
        }
    }
}

/// Compute a PC-relative displacement with two's-complement wraparound.
fn pc_relative(target: u32, current: u32) -> (r: i32)
    ensures
        r == spec_pc_rel(target, current),
{
    let t = #[verifier::truncate] (target as i32);
    let c = #[verifier::truncate] (current as i32);
    t.wrapping_sub(c)
}

/// A note naming an unexpected operand count.
fn expected_note(wanted: &str, received: usize, shape: &str) -> (r: String)
    ensures
        true,
{
    let mut out = "Expected ".to_owned();
    out.append(wanted);
    out.append(" operands but received ");
    out.append(
        crate::assembler::numbers::u32_to_dec_string(
            #[verifier::truncate] (received as u32),
        ).as_str(),
    );
    out.append(shape);
    out
}

} // verus!
