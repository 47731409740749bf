//! Render a byte stream as a textual hex dump: one line per four-byte
//! little-endian word, `address: word`, both as eight lower-case hex
//! digits, an incomplete trailing word padded with zero bytes.

use vstd::prelude::*;
use vstd::string::StrSliceExecFns;
use vstd::string::StringExecFns;
use crate::assembler::numbers::digit_str;
use crate::assembler::numbers::spec_digit_char;

verus! {

/// `v` as exactly `width` hex digits, lower case, most significant first.
pub open spec fn spec_hex_fixed(v: u32, width: nat) -> Seq<char>
    decreases width,
{
    if width == 0 {
        Seq::empty()
    } else {
        spec_hex_fixed(v / 16, (width - 1) as nat).push(spec_digit_char((v % 16) as nat))
    }
}

/// The byte at `i`, or zero past the end: an incomplete trailing word is
/// padded with zero bytes.
pub open spec fn spec_byte_at(bytes: Seq<u8>, i: int) -> u32 {
    if 0 <= i < bytes.len() {
        bytes[i] as u32
    } else {
        0
    }
}

/// The little-endian 32-bit word at the front of `bytes`.
pub open spec fn spec_chunk_word(bytes: Seq<u8>) -> u32 {
    (spec_byte_at(bytes, 0) + spec_byte_at(bytes, 1) * 0x100 + spec_byte_at(bytes, 2) * 0x10000
        + spec_byte_at(bytes, 3) * 0x1000000) as u32
}

/// The dump of `bytes` starting at byte address `addr`: one
/// `address: word` line per four-byte chunk.
pub open spec fn spec_hexdump_at(bytes: Seq<u8>, addr: u32) -> Seq<char>
    decreases bytes.len(),
{
    if bytes.len() == 0 {
        Seq::empty()
    } else {
        let step = if bytes.len() < 4 {
            bytes.len() as int
        } else {
            4
        };
        spec_hex_fixed(addr, 8) + ": "@ + spec_hex_fixed(spec_chunk_word(bytes), 8) + "\n"@
            + spec_hexdump_at(bytes.skip(step), ((addr + 4) % 0x100000000) as u32)
    }
}

/// The textual hex dump of a byte stream, from address zero.
pub open spec fn spec_generate_hexdump(bytes: Seq<u8>) -> Seq<char> {
    spec_hexdump_at(bytes, 0)
}

/// Write `v` as exactly `width` hex digits.
fn hex_fixed(v: u32, width: u32) -> (r: String)
    ensures
        r@ == spec_hex_fixed(v, width as nat),
    decreases width,
{
    if width == 0 {
        let r = String::new();
        proof {
            assert(r@ =~= spec_hex_fixed(v, 0));
        }
        r
    } else {
        let mut r = hex_fixed(v / 16, width - 1);
        r.append(digit_str(v % 16));
        proof {
            assert(r@ =~= spec_hex_fixed(v, width as nat));
        }
        r
    }
}

/// Render `binary` as a hex dump: `"{address:08x}: {word:08x}\n"` for each
/// four-byte little-endian word, the last word zero-padded if incomplete.
pub fn generate_hexdump(binary: &[u8]) -> (r: String)
    ensures
        r@ == spec_generate_hexdump(binary@),
{
    let n = binary.len();
    let mut hexdump = String::new();
    let mut address: u32 = 0;
    let mut i: usize = 0;
    proof {
        assert(binary@.skip(0) =~= binary@);
        assert(hexdump@ + spec_hexdump_at(binary@, 0) =~= spec_hexdump_at(binary@, 0));
    }
    while i < n
        invariant
            i <= n,
            n == binary@.len(),
            spec_generate_hexdump(binary@) == hexdump@ + spec_hexdump_at(
                binary@.skip(i as int),
                address,
            ),
        decreases n - i,
    {
        let ghost rest = binary@.skip(i as int);
        let b0 = binary[i] as u32;
        let b1 = if i + 1 < n {
            binary[i + 1] as u32
        } else {
            0
        };
        let b2 = if n - i > 2 {
            binary[i + 2] as u32
        } else {
            0
        };
        let b3 = if n - i > 3 {
            binary[i + 3] as u32
        } else {
            0
        };
        let word = b0 + b1 * 0x100 + b2 * 0x10000 + b3 * 0x1000000;
        proof {
            assert(spec_byte_at(rest, 0) == b0);
            assert(spec_byte_at(rest, 1) == b1);
            assert(spec_byte_at(rest, 2) == b2);
            assert(spec_byte_at(rest, 3) == b3);
            assert(word == spec_chunk_word(rest));
            reveal_strlit(": ");
            reveal_strlit("\n");
        }
        let addr_hex = hex_fixed(address, 8);
        let word_hex = hex_fixed(word, 8);
        let ghost before = hexdump@;
        hexdump.append(addr_hex.as_str());
        hexdump.append(": ");
        hexdump.append(word_hex.as_str());
        hexdump.append("\n");
        let step: usize = if n - i < 4 {
            n - i
        } else {
            4
        };
        proof {
            assert(rest.skip(if rest.len() < 4 {
                rest.len() as int
            } else {
                4
            }) =~= binary@.skip(i + step));
            assert(hexdump@ =~= before + (spec_hex_fixed(address, 8) + ": "@ + spec_hex_fixed(
                spec_chunk_word(rest),
                8,
            ) + "\n"@));
            assert(hexdump@ + spec_hexdump_at(binary@.skip(i + step), ((address + 4) % 0x100000000) as u32)
                =~= before + spec_hexdump_at(rest, address));
        }
        address = address.wrapping_add(4);
        i += step;
    }
    proof {
        assert(binary@.skip(n as int) =~= Seq::<u8>::empty());
        assert(hexdump@ + Seq::<char>::empty() =~= hexdump@);
    }
    hexdump
}

} // verus!
