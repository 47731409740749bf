//! The assembler's components: operand parsers, format encoders, the
//! instruction catalog, the pseudo-instruction expander, and the two-pass
//! driver.

pub mod csr;
pub mod encoder;
pub mod error;
pub mod hexdump;
pub mod instructions;
pub mod numbers;
pub mod parser;
pub mod pseudo_instructions;
pub mod registers;
pub mod sections;
pub mod symbols;
pub mod text;

pub use encoder::encode_b_type;
pub use encoder::encode_i_type;
pub use encoder::encode_j_type;
pub use encoder::encode_r_type;
pub use encoder::encode_s_type;
pub use encoder::encode_u_type;
pub use error::AssemblerError;
pub use parser::Parser;

use vstd::prelude::*;
use vstd::string::StrSliceExecFns;
use crate::assembler::error::ErrorKind;
use crate::assembler::error::SpecError;
use crate::assembler::error::err_matches;
use crate::assembler::parser::lemma_parse_line_len;
use crate::assembler::parser::lemma_parse_line_strips_label;
use crate::assembler::parser::lemma_parse_line_width_stable;
use crate::assembler::parser::spec_parse_line;
use crate::assembler::symbols::SymbolTable;
use crate::assembler::text::find_char;
use crate::assembler::text::lemma_index_of;
use crate::assembler::text::spec_index_of;
use crate::assembler::text::lemma_trim_chars;
use crate::assembler::text::lemma_trim_idempotent;
use crate::assembler::text::spec_trim;
use crate::assembler::text::trim;

verus! {

/// The little-endian bytes of one 32-bit word.
pub open spec fn spec_word_le_bytes(w: u32) -> Seq<u8> {
    seq![
        (w & 0xFF) as u8,
        ((w >> 8) & 0xFF) as u8,
        ((w >> 16) & 0xFF) as u8,
        ((w >> 24) & 0xFF) as u8,
    ]
}

/// The little-endian byte stream of a word sequence, in order.
pub open spec fn spec_le_bytes(ws: Seq<u32>) -> Seq<u8>
    decreases ws.len(),
{
    if ws.len() == 0 {
        Seq::empty()
    } else {
        spec_le_bytes(ws.drop_last()) + spec_word_le_bytes(ws.last())
    }
}

/// A line's contribution to the comment-free, trimmed text the two passes
/// both work on.
pub open spec fn spec_logical_line(raw: Seq<char>) -> Seq<char> {
    spec_trim(raw.take(spec_index_of(raw, '#')))
}

/// The address after one non-blank line in the width-only first pass: four
/// bytes per word the line will produce, and four for a line the first
/// pass cannot yet resolve (an undefined label is still one instruction).
pub open spec fn spec_bump(line: Seq<char>, addr: u32) -> u32 {
    match spec_parse_line(line, addr, Map::empty()) {
        Ok(ws) => ((addr + 4 * ws.len()) % 0x100000000) as u32,
        Err(_) => ((addr + 4) % 0x100000000) as u32,
    }
}

/// The symbol table after the first pass has walked lines `i` onward,
/// starting from `symbols` at byte address `addr`: each label is recorded
/// at the address of the first word its line emits; a label defined twice
/// keeps its last definition.
pub open spec fn spec_pass1(
    lines: Seq<Seq<char>>,
    i: nat,
    symbols: Map<Seq<char>, u32>,
    addr: u32,
) -> Map<Seq<char>, u32>
    decreases lines.len() - i,
{
    if i >= lines.len() {
        symbols
    } else {
        let line = spec_logical_line(lines[i as int]);
        if line.len() == 0 {
            spec_pass1(lines, i + 1, symbols, addr)
        } else if line.contains(':') {
            let ci = spec_index_of(line, ':');
            let label = spec_trim(line.take(ci));
            let code = spec_trim(line.skip(ci + 1));
            let symbols2 = if label.len() > 0 {
                symbols.insert(label, addr)
            } else {
                symbols
            };
            let addr2 = if code.len() > 0 {
                spec_bump(line, addr)
            } else {
                addr
            };
            spec_pass1(lines, i + 1, symbols2, addr2)
        } else {
            spec_pass1(lines, i + 1, symbols, spec_bump(line, addr))
        }
    }
}

/// The byte stream the second pass emits for lines `i` onward, given the
/// completed symbol table, the current byte address and the bytes emitted
/// so far; the first error anywhere aborts the run.
pub open spec fn spec_pass2(
    lines: Seq<Seq<char>>,
    i: nat,
    symbols: Map<Seq<char>, u32>,
    addr: u32,
    out: Seq<u8>,
) -> Result<Seq<u8>, SpecError>
    decreases lines.len() - i,
{
    if i >= lines.len() {
        Ok(out)
    } else {
        let line = spec_logical_line(lines[i as int]);
        if line.len() == 0 {
            spec_pass2(lines, i + 1, symbols, addr, out)
        } else {
            let stmt = if line.contains(':') {
                spec_trim(line.skip(spec_index_of(line, ':') + 1))
            } else {
                line
            };
            if stmt.len() == 0 {
                spec_pass2(lines, i + 1, symbols, addr, out)
            } else {
                match spec_parse_line(stmt, addr, symbols) {
                    Err(se) => Err(se),
                    Ok(ws) => spec_pass2(
                        lines,
                        i + 1,
                        symbols,
                        ((addr + 4 * ws.len()) % 0x100000000) as u32,
                        out + spec_le_bytes(ws),
                    ),
                }
            }
        }
    }
}

/// What a whole source assembles to: the first pass collects every label,
/// the second emits the machine words as little-endian bytes.
pub open spec fn spec_assemble(lines: Seq<Seq<char>>) -> Result<Seq<u8>, SpecError> {
    spec_pass2(lines, 0, spec_pass1(lines, 0, Map::empty(), 0), 0, Seq::empty())
}

/// The statement a line hands the encoder: the logical line with any label
/// prefix removed.
pub open spec fn spec_stmt_of(raw: Seq<char>) -> Seq<char> {
    let line = spec_logical_line(raw);
    if line.contains(':') {
        spec_trim(line.skip(spec_index_of(line, ':') + 1))
    } else {
        line
    }
}

/// A line with at most one colon: after its label prefix no further colon
/// follows. The two-pass address laws hold line by line under this shape.
pub open spec fn spec_single_label(raw: Seq<char>) -> bool {
    !spec_stmt_of(raw).contains(':')
}

/// Whether a line defines the label `l`.
pub open spec fn spec_defines_label(raw: Seq<char>, l: Seq<char>) -> bool {
    let line = spec_logical_line(raw);
    &&& line.len() > 0
    &&& line.contains(':')
    &&& spec_trim(line.take(spec_index_of(line, ':'))) == l
    &&& l.len() > 0
}

/// The address after one line in the first pass.
pub open spec fn spec_pass1_step(raw: Seq<char>, addr: u32) -> u32 {
    let line = spec_logical_line(raw);
    if line.len() == 0 {
        addr
    } else if line.contains(':') {
        if spec_stmt_of(raw).len() > 0 {
            spec_bump(line, addr)
        } else {
            addr
        }
    } else {
        spec_bump(line, addr)
    }
}

/// The symbol table after one line in the first pass: a labeled line
/// records its label at the line's own address.
pub open spec fn spec_pass1_map_step(
    raw: Seq<char>,
    m: Map<Seq<char>, u32>,
    addr: u32,
) -> Map<Seq<char>, u32> {
    let line = spec_logical_line(raw);
    if line.len() > 0 && line.contains(':') {
        let label = spec_trim(line.take(spec_index_of(line, ':')));
        if label.len() > 0 {
            m.insert(label, addr)
        } else {
            m
        }
    } else {
        m
    }
}

/// The address after one line in the second pass, or `None` when the line
/// fails to assemble.
pub open spec fn spec_pass2_step(raw: Seq<char>, addr: u32, symbols: Map<Seq<char>, u32>) -> Option<
    u32,
> {
    let line = spec_logical_line(raw);
    if line.len() == 0 {
        Some(addr)
    } else {
        let stmt = spec_stmt_of(raw);
        if stmt.len() == 0 {
            Some(addr)
        } else {
            match spec_parse_line(stmt, addr, symbols) {
                Ok(ws) => Some(((addr + 4 * ws.len()) % 0x100000000) as u32),
                Err(_) => None,
            }
        }
    }
}

/// The first-pass byte address before line `k`.
pub open spec fn spec_pass1_addr(lines: Seq<Seq<char>>, k: nat) -> u32
    decreases k,
{
    if k == 0 {
        0
    } else {
        spec_pass1_step(lines[k - 1], spec_pass1_addr(lines, (k - 1) as nat))
    }
}

/// The first-pass symbol table before line `k`.
pub open spec fn spec_pass1_map(lines: Seq<Seq<char>>, k: nat) -> Map<Seq<char>, u32>
    decreases k,
{
    if k == 0 {
        Map::empty()
    } else {
        spec_pass1_map_step(
            lines[k - 1],
            spec_pass1_map(lines, (k - 1) as nat),
            spec_pass1_addr(lines, (k - 1) as nat),
        )
    }
}

/// The complete symbol table the first pass builds.
pub open spec fn spec_pass1_table(lines: Seq<Seq<char>>) -> Map<Seq<char>, u32> {
    spec_pass1_map(lines, lines.len() as nat)
}

/// The second-pass byte address before line `k`, or `None` once a line has
/// failed.
pub open spec fn spec_pass2_addr(lines: Seq<Seq<char>>, symbols: Map<Seq<char>, u32>, k: nat) -> Option<
    u32,
>
    decreases k,
{
    if k == 0 {
        Some(0)
    } else {
        match spec_pass2_addr(lines, symbols, (k - 1) as nat) {
            None => None,
            Some(a) => spec_pass2_step(lines[k - 1], a, symbols),
        }
    }
}

/// The first pass walks lines `i` on from the stream state and ends in the
/// complete table: its running address and map are exactly the per-line
/// streams.
pub proof fn lemma_pass1_is_stream(lines: Seq<Seq<char>>, i: nat)
    requires
        i <= lines.len(),
    ensures
        spec_pass1(lines, i, spec_pass1_map(lines, i), spec_pass1_addr(lines, i))
            == spec_pass1_table(lines),
    decreases lines.len() - i,
{
    if i < lines.len() {
        lemma_pass1_is_stream(lines, i + 1);
    }
}

/// The table `collect_labels` builds is the stream table the address laws
/// speak of.
pub proof fn lemma_pass1_builds_table(lines: Seq<Seq<char>>)
    ensures
        spec_pass1(lines, 0, Map::empty(), 0) == spec_pass1_table(lines),
{
    lemma_pass1_is_stream(lines, 0);
}

/// Where the second pass succeeds on a line, the first pass advanced that
/// line by exactly the same amount: a line's width never depends on the
/// symbol table.
proof fn lemma_line_step_agreement(raw: Seq<char>, addr: u32, symbols: Map<Seq<char>, u32>)
    requires
        spec_single_label(raw),
    ensures
        spec_pass2_step(raw, addr, symbols) matches Some(a2) ==> spec_pass1_step(raw, addr) == a2,
{
    let line = spec_logical_line(raw);
    let stmt = spec_stmt_of(raw);
    if line.len() > 0 && stmt.len() > 0 && spec_pass2_step(raw, addr, symbols) is Some {
        lemma_index_of(raw, '#');
        let pre = raw.take(spec_index_of(raw, '#'));
        assert(forall|j: int| 0 <= j < pre.len() ==> pre[j] != '#');
        lemma_trim_chars(pre, '#');
        lemma_trim_idempotent(pre);
        if line.contains(':') {
            lemma_parse_line_strips_label(line, addr, Map::<Seq<char>, u32>::empty());
        }
        lemma_parse_line_width_stable(stmt, addr, Map::<Seq<char>, u32>::empty(), symbols);
        lemma_parse_line_len(stmt, addr, symbols);
    }
}

/// Two-pass address agreement: wherever the second pass reaches a line, it
/// holds exactly the byte address the first pass assigned that line. The
/// first pass records a label on line `k` at its own address for line `k`,
/// so every label resolves to the address the second pass holds when it
/// reaches the labeled line.
pub proof fn lemma_two_pass_agreement(lines: Seq<Seq<char>>, symbols: Map<Seq<char>, u32>, k: nat)
    requires
        k <= lines.len(),
        forall|j: int| 0 <= j < lines.len() ==> spec_single_label(#[trigger] lines[j]),
    ensures
        spec_pass2_addr(lines, symbols, k) matches Some(a) ==> spec_pass1_addr(lines, k) == a,
    decreases k,
{
    if k > 0 {
        lemma_two_pass_agreement(lines, symbols, (k - 1) as nat);
        let prev = spec_pass2_addr(lines, symbols, (k - 1) as nat);
        if prev is Some {
            lemma_line_step_agreement(lines[k - 1], prev->Some_0, symbols);
        }
    }
}

proof fn lemma_pass1_map_preserved(lines: Seq<Seq<char>>, l: Seq<char>, k: nat, j: nat)
    requires
        k <= j <= lines.len(),
        forall|i: int| k <= i < j ==> !spec_defines_label(#[trigger] lines[i], l),
    ensures
        spec_pass1_map(lines, j).contains_key(l) == spec_pass1_map(lines, k).contains_key(l),
        spec_pass1_map(lines, k).contains_key(l) ==> spec_pass1_map(lines, j)[l]
            == spec_pass1_map(lines, k)[l],
    decreases j - k,
{
    if j > k {
        lemma_pass1_map_preserved(lines, l, k, (j - 1) as nat);
    }
}

/// The two-pass law in full: a label defined on line `k` and not redefined
/// later resolves, in the completed symbol table, to the very byte address
/// the second pass holds when it reaches line `k`.
pub proof fn lemma_label_address_agreement(lines: Seq<Seq<char>>, l: Seq<char>, k: nat)
    requires
        k < lines.len(),
        forall|j: int| 0 <= j < lines.len() ==> spec_single_label(#[trigger] lines[j]),
        spec_defines_label(lines[k as int], l),
        forall|j: int| k < j < lines.len() ==> !spec_defines_label(#[trigger] lines[j], l),
        spec_pass2_addr(lines, spec_pass1_table(lines), k) is Some,
    ensures
        spec_pass1_table(lines).contains_key(l),
        spec_pass1_table(lines)[l] == spec_pass2_addr(lines, spec_pass1_table(lines), k)->Some_0,
{
    lemma_two_pass_agreement(lines, spec_pass1_table(lines), k);
    assert(spec_pass1_map(lines, k + 1).contains_key(l) && spec_pass1_map(lines, k + 1)[l]
        == spec_pass1_addr(lines, k));
    lemma_pass1_map_preserved(lines, l, k + 1, lines.len() as nat);
}

/// The two-pass driver: owns the line dispatcher and the symbol table.
pub struct Assembler {
    parser: Parser,
    symbols: SymbolTable,
}

impl Assembler {
    /// The symbol table as built so far.
    pub closed spec fn spec_symbols(&self) -> Map<Seq<char>, u32> {
        self.symbols@
    }

    pub fn new() -> (r: Self)
        ensures
            r.spec_symbols() == Map::<Seq<char>, u32>::empty(),
    {
        Self { parser: Parser::new(), symbols: SymbolTable::new() }
    }

    /// First pass: walk every line once and record each label's byte
    /// address, computing instruction widths with an empty symbol table.
    #[verifier::rlimit(100)]
    pub fn collect_labels(&mut self, lines: &Vec<String>)
        ensures
            final(self).spec_symbols() == spec_pass1(lines.deep_view(), 0, Map::empty(), 0),
    {
        self.symbols.clear();
        let mut current_address: u32 = 0;
        let mut i: usize = 0;
        while i < lines.len()
            invariant
                i <= lines@.len(),
                spec_pass1(lines.deep_view(), 0, Map::empty(), 0) == spec_pass1(
                    lines.deep_view(),
                    i as nat,
                    self.symbols@,
                    current_address,
                ),
            decreases lines@.len() - i,
        {
            let ghost lv = lines.deep_view();
            let raw: &str = lines[i].as_str();
            proof {
                assert(raw@ == lv[i as int]);
                lemma_index_of(raw@, '#');
            }
            let line = logical_line(raw);
            if line.unicode_len() != 0 {
                proof {
                    lemma_index_of(line@, ':');
                }
                match find_char(line, ':') {
                    Some(ci) => {
                        proof {
                            assert(line@.contains(':')) by {
                                assert(line@[ci as int] == ':');
                            }
                            assert(spec_index_of(line@, ':') == ci as int);
                        }
                        let label_part = line.substring_char(0, ci);
                        let code_part = line.substring_char(ci + 1, line.unicode_len());
                        proof {
                            assert(label_part@ =~= line@.take(spec_index_of(line@, ':')));
                            assert(code_part@ =~= line@.skip(spec_index_of(line@, ':') + 1));
                        }
                        let label = trim(label_part);
                        let code = trim(code_part);
                        if label.unicode_len() != 0 {
                            self.symbols.insert(label, current_address);
                        }
                        if code.unicode_len() != 0 {
                            self.increment_address(line, &mut current_address);
                        }
                    },
                    None => {
                        proof {
                            if line@.contains(':') {
                                let k = choose|k: int|
                                    0 <= k < line@.len() && line@[k] == ':';
                                assert(line@[k] == ':');
                            }
                        }
                        self.increment_address(line, &mut current_address);
                    },
                }
            }
            i += 1;
        }
    }

    /// Parse one statement and append its words to the output as
    /// little-endian bytes, advancing the byte address by four per word.
    fn process_instruction(&self, src: &str, addr: &mut u32, out: &mut Vec<u8>) -> (r: Result<
        (),
        AssemblerError,
    >)
        ensures
            match r {
                Ok(_) => {
                    &&& spec_parse_line(src@, *old(addr), self.spec_symbols()) matches Ok(ws)
                    &&& final(out)@ == old(out)@ + spec_le_bytes(
                        spec_parse_line(src@, *old(addr), self.spec_symbols())->Ok_0,
                    )
                    &&& *final(addr) == ((*old(addr) + 4 * spec_parse_line(
                        src@,
                        *old(addr),
                        self.spec_symbols(),
                    )->Ok_0.len()) % 0x100000000) as u32
                },
                Err(e) => {
                    &&& spec_parse_line(src@, *old(addr), self.spec_symbols()) matches Err(se)
                        && err_matches(&e, se)
                    &&& final(out)@ == old(out)@
                    &&& *final(addr) == *old(addr)
                },
            },
    {
        let words = match self.parser.parse_line(src, *addr, &self.symbols) {
            Ok(ws) => ws,
            Err(e) => {
                return Err(e);
            },
        };
        let ghost ws = words@;
        proof {
            lemma_parse_line_len(src@, *addr, self.spec_symbols());
        }
        let mut k: usize = 0;
        proof {
            assert(old(out)@ + spec_le_bytes(ws.take(0)) =~= old(out)@);
        }
        while k < words.len()
            invariant
                k <= words@.len(),
                ws == words@,
                ws.len() <= 2,
                out@ == old(out)@ + spec_le_bytes(ws.take(k as int)),
                *addr == ((*old(addr) + 4 * k) % 0x100000000) as u32,
            decreases words@.len() - k,
        {
            let word = words[k];
            out.push((word & 0xFF) as u8);
            out.push(((word >> 8) & 0xFF) as u8);
            out.push(((word >> 16) & 0xFF) as u8);
            out.push(((word >> 24) & 0xFF) as u8);
            *addr = addr.wrapping_add(4);
            proof {
                assert(ws.take(k + 1).drop_last() =~= ws.take(k as int));
                assert(ws.take(k + 1).last() == ws[k as int]);
                assert(out@ =~= old(out)@ + spec_le_bytes(ws.take(k + 1)));
            }
            k += 1;
        }
        proof {
            assert(ws.take(ws.len() as int) =~= ws);
        }
        Ok(())
    }

    /// Advance the byte address past one statement without a symbol table:
    /// four bytes per word the line yields, and four when it cannot be
    /// resolved yet.
    #[verifier::rlimit(100)]
    fn increment_address(&self, src: &str, addr: &mut u32)
        ensures
            *final(addr) == spec_bump(src@, *old(addr)),
    {
        let empty = SymbolTable::new();
        match self.parser.parse_line(src, *addr, &empty) {
            Ok(instructions) => {
                proof {
                    lemma_parse_line_len(src@, *addr, empty@);
                }
                let n: u32 = instructions.len() as u32;
                *addr = addr.wrapping_add(n.wrapping_mul(4));
            },
            Err(_) => {
                *addr = addr.wrapping_add(4);
            },
        }
    }

    /// Assemble a whole source: collect every label in a first pass, then
    /// emit the machine code in a second. The first error aborts the run
    /// and no partial binary is returned.
    #[verifier::rlimit(100)]
    pub fn assemble(&mut self, lines: &Vec<String>) -> (r: Result<Vec<u8>, AssemblerError>)
        ensures
            match r {
                Ok(v) => spec_assemble(lines.deep_view()) == Ok::<Seq<u8>, SpecError>(v@),
                Err(e) => spec_assemble(lines.deep_view()) matches Err(se) && err_matches(&e, se),
            },
    {
        self.collect_labels(lines);
        let ghost symbols = self.spec_symbols();
        let mut output: Vec<u8> = Vec::new();
        let mut current_address: u32 = 0;
        let mut i: usize = 0;
        while i < lines.len()
            invariant
                i <= lines@.len(),
                self.spec_symbols() == symbols,
                symbols == spec_pass1(lines.deep_view(), 0, Map::empty(), 0),
                spec_assemble(lines.deep_view()) == spec_pass2(
                    lines.deep_view(),
                    i as nat,
                    symbols,
                    current_address,
                    output@,
                ),
            decreases lines@.len() - i,
        {
            let ghost lv = lines.deep_view();
            let raw: &str = lines[i].as_str();
            proof {
                assert(raw@ == lv[i as int]);
                lemma_index_of(raw@, '#');
            }
            let line = logical_line(raw);
            if line.unicode_len() != 0 {
                proof {
                    lemma_index_of(line@, ':');
                }
                let stmt: &str = match find_char(line, ':') {
                    Some(ci) => {
                        proof {
                            assert(line@.contains(':')) by {
                                assert(line@[ci as int] == ':');
                            }
                            assert(spec_index_of(line@, ':') == ci as int);
                        }
                        let code_part = line.substring_char(ci + 1, line.unicode_len());
                        proof {
                            assert(code_part@ =~= line@.skip(spec_index_of(line@, ':') + 1));
                        }
                        trim(code_part)
                    },
                    None => {
                        proof {
                            if line@.contains(':') {
                                let k = choose|k: int|
                                    0 <= k < line@.len() && line@[k] == ':';
                                assert(line@[k] == ':');
                            }
                        }
                        line
                    },
                };
                if stmt.unicode_len() != 0 {
                    match self.process_instruction(stmt, &mut current_address, &mut output) {
                        Ok(_) => {},
                        Err(e) => {
                            return Err(e);
                        },
                    }
                }
            }
            i += 1;
        }
        Ok(output)
    }
}

/// Cut a raw line at its comment and trim it.
fn logical_line(raw: &str) -> (r: &str)
    ensures
        r@ == spec_logical_line(raw@),
{
    let n = raw.unicode_len();
    proof {
        lemma_index_of(raw@, '#');
    }
    let hash = match find_char(raw, '#') {
        Some(i) => i,
        None => n,
    };
    proof {
        assert(spec_index_of(raw@, '#') == hash as int);
    }
    let before = raw.substring_char(0, hash);
    proof {
        assert(before@ =~= raw@.take(spec_index_of(raw@, '#')));
    }
    trim(before)
}

} // verus!
