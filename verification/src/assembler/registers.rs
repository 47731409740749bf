//! The ABI register name table: human-friendly aliases for the 32
//! general-purpose registers.

use vstd::prelude::*;
use crate::assembler::text::spec_lower;
use crate::assembler::text::str_eq_lower;

verus! {

/// Register number of an ABI name, over the already case-folded name.
pub open spec fn spec_abi_register(s: Seq<char>) -> Option<u32> {
    if s == "zero"@ {
        Some(0u32)  // Zero constant
    } else if s == "ra"@ {
        Some(1u32)  // Return address
    } else if s == "sp"@ {
        Some(2u32)  // Stack pointer
    } else if s == "gp"@ {
        Some(3u32)  // Global pointer
    } else if s == "tp"@ {
        Some(4u32)  // Thread pointer
    } else if s == "t0"@ {
        Some(5u32)  // Temporary
    } else if s == "t1"@ {
        Some(6u32)  // Temporary
    } else if s == "t2"@ {
        Some(7u32)  // Temporary
    } else if s == "fp"@ {
        Some(8u32)  // Frame pointer
    } else if s == "s0"@ {
        Some(8u32)  // Saved register
    } else if s == "s1"@ {
        Some(9u32)  // Saved register
    } else if s == "a0"@ {
        Some(10u32)  // Fn args/return values
    } else if s == "a1"@ {
        Some(11u32)  // Fn args
    } else if s == "a2"@ {
        Some(12u32)  // Fn args
    } else if s == "a3"@ {
        Some(13u32)  // Fn args
    } else if s == "a4"@ {
        Some(14u32)  // Fn args
    } else if s == "a5"@ {
        Some(15u32)  // Fn args
    } else if s == "a6"@ {
        Some(16u32)  // Fn args
    } else if s == "a7"@ {
        Some(17u32)  // Fn args
    } else if s == "s2"@ {
        Some(18u32)  // Saved register
    } else if s == "s3"@ {
        Some(19u32)  // Saved register
    } else if s == "s4"@ {
        Some(20u32)  // Saved register
    } else if s == "s5"@ {
        Some(21u32)  // Saved register
    } else if s == "s6"@ {
        Some(22u32)  // Saved register
    } else if s == "s7"@ {
        Some(23u32)  // Saved register
    } else if s == "s8"@ {
        Some(24u32)  // Saved register
    } else if s == "s9"@ {
        Some(25u32)  // Saved register
    } else if s == "s10"@ {
        Some(26u32)  // Saved register
    } else if s == "s11"@ {
        Some(27u32)  // Saved register
    } else if s == "t3"@ {
        Some(28u32)  // Temporary
    } else if s == "t4"@ {
        Some(29u32)  // Temporary
    } else if s == "t5"@ {
        Some(30u32)  // Temporary
    } else if s == "t6"@ {
        Some(31u32)  // Temporary
    } else {
        None
    }
}

/// Look `s` up in the ABI name table, case-insensitively.
pub fn abi_register(s: &str) -> (r: Option<u32>)
    ensures
        r == spec_abi_register(spec_lower(s@)),
{
    if str_eq_lower(s, "zero") {
        Some(0)
    } else if str_eq_lower(s, "ra") {
        Some(1)
    } else if str_eq_lower(s, "sp") {
        Some(2)
    } else if str_eq_lower(s, "gp") {
        Some(3)
    } else if str_eq_lower(s, "tp") {
        Some(4)
    } else if str_eq_lower(s, "t0") {
        Some(5)
    } else if str_eq_lower(s, "t1") {
        Some(6)
    } else if str_eq_lower(s, "t2") {
        Some(7)
    } else if str_eq_lower(s, "fp") {
        Some(8)
    } else if str_eq_lower(s, "s0") {
        Some(8)
    } else if str_eq_lower(s, "s1") {
        Some(9)
    } else if str_eq_lower(s, "a0") {
        Some(10)
    } else if str_eq_lower(s, "a1") {
        Some(11)
    } else if str_eq_lower(s, "a2") {
        Some(12)
    } else if str_eq_lower(s, "a3") {
        Some(13)
    } else if str_eq_lower(s, "a4") {
        Some(14)
    } else if str_eq_lower(s, "a5") {
        Some(15)
    } else if str_eq_lower(s, "a6") {
        Some(16)
    } else if str_eq_lower(s, "a7") {
        Some(17)
    } else if str_eq_lower(s, "s2") {
        Some(18)
    } else if str_eq_lower(s, "s3") {
        Some(19)
    } else if str_eq_lower(s, "s4") {
        Some(20)
    } else if str_eq_lower(s, "s5") {
        Some(21)
    } else if str_eq_lower(s, "s6") {
        Some(22)
    } else if str_eq_lower(s, "s7") {
        Some(23)
    } else if str_eq_lower(s, "s8") {
        Some(24)
    } else if str_eq_lower(s, "s9") {
        Some(25)
    } else if str_eq_lower(s, "s10") {
        Some(26)
    } else if str_eq_lower(s, "s11") {
        Some(27)
    } else if str_eq_lower(s, "t3") {
        Some(28)
    } else if str_eq_lower(s, "t4") {
        Some(29)
    } else if str_eq_lower(s, "t5") {
        Some(30)
    } else if str_eq_lower(s, "t6") {
        Some(31)
    } else {
        None
    }
}

} // verus!
