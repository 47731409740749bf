//! Digit handling: reading unsigned integers in a given radix and writing
//! them back as text, with the round-trip law connecting the two.

use vstd::prelude::*;
use vstd::string::StrSliceExecFns;
use vstd::string::StringExecFns;
use crate::assembler::text::lower_char;

verus! {

/// Numeric value of a character as a digit: `0-9`, then `a-z` and `A-Z`
/// from ten upward. Characters that are no digit in any radix map to 99.
pub open spec fn spec_char_val(c: char) -> int {
    if 48 <= c as u32 <= 57 {
        c as u32 - 48  // '0' ..= '9'

    } else if 97 <= c as u32 <= 122 {
        c as u32 - 87  // 'a' ..= 'z'

    } else if 65 <= c as u32 <= 90 {
        c as u32 - 55  // 'A' ..= 'Z'

    } else {
        99
    }
}

/// Whether `c` is a valid digit under `radix`.
pub open spec fn spec_is_digit(c: char, radix: u32) -> bool {
    spec_char_val(c) < radix
}

pub open spec fn spec_all_digits(s: Seq<char>, radix: u32) -> bool {
    forall|j: int| 0 <= j < s.len() ==> spec_is_digit(s[j], radix)
}

/// The value of a digit string under `radix`, most significant digit first.
/// Digits outside the radix contribute their raw character value; callers
/// guard with `spec_all_digits`.
pub open spec fn spec_digits_val(s: Seq<char>, radix: u32) -> nat
    decreases s.len(),
{
    if s.len() == 0 {
        0
    } else {
        spec_digits_val(s.drop_last(), radix) * (radix as nat) + (spec_char_val(s.last()) as nat)
    }
}

/// An unsigned integer literal under `radix`: a non-empty run of digits
/// whose value fits in 32 bits. Anything else is no literal.
pub open spec fn spec_parse_u32_radix(s: Seq<char>, radix: u32) -> Option<u32> {
    if s.len() > 0 && spec_all_digits(s, radix) && spec_digits_val(s, radix) < 0x100000000 {
        Some(spec_digits_val(s, radix) as u32)
    } else {
        None
    }
}

pub fn char_val(c: char) -> (v: u32)
    ensures
        v == spec_char_val(c),
{
    let u = c as u32;
    if 48 <= u && u <= 57 {
        u - 48
    } else if 97 <= u && u <= 122 {
        u - 87
    } else if 65 <= u && u <= 90 {
        u - 55
    } else {
        99
    }
}

/// Read a non-empty all-digit string as a 32-bit unsigned integer.
pub fn parse_u32_radix(s: &str, radix: u32) -> (r: Option<u32>)
    requires
        2 <= radix <= 16,
    ensures
        r == spec_parse_u32_radix(s@, radix),
{
    let n = s.unicode_len();
    if n == 0 {
        return None;
    }
    let mut acc: u32 = 0;
    let mut over = false;
    let mut i: usize = 0;
    while i < n
        invariant
            i <= n,
            n == s@.len(),
            2 <= radix <= 16,
            forall|j: int| 0 <= j < i ==> spec_is_digit(s@[j], radix),
            !over ==> acc == spec_digits_val(s@.take(i as int), radix),
            over ==> spec_digits_val(s@.take(i as int), radix) >= 0x100000000,
        decreases n - i,
    {
        let c = s.get_char(i);
        let v = char_val(c);
        if v >= radix {
            return None;
        }
        proof {
            assert(s@.take(i + 1).drop_last() =~= s@.take(i as int));
            assert(s@.take(i + 1).last() == s@[i as int]);
            assert(spec_digits_val(s@.take(i + 1), radix) == spec_digits_val(
                s@.take(i as int),
                radix,
            ) * (radix as nat) + (spec_char_val(s@[i as int]) as nat));
        }
        if !over {
            if acc > (u32::MAX - v) / radix {
                over = true;
                proof {
                    assert(acc * radix + v >= 0x100000000) by (nonlinear_arith)
                        requires
                            acc > (0xFFFFFFFFu32 - v) / (radix as int),
                            2 <= radix <= 16,
                            v < radix,
                            acc <= 0xFFFFFFFF,
                    ;
                }
            } else {
                proof {
                    assert(acc * radix + v <= 0xFFFFFFFF) by (nonlinear_arith)
                        requires
                            acc <= (0xFFFFFFFFu32 - v) / (radix as int),
                            2 <= radix <= 16,
                            v < radix,
                    ;
                }
                acc = acc * radix + v;
            }
        } else {
            proof {
                assert(spec_digits_val(s@.take(i as int), radix) * (radix as nat)
                    >= spec_digits_val(s@.take(i as int), radix)) by (nonlinear_arith)
                    requires
                        radix >= 2,
                ;
            }
        }
        i += 1;
    }
    proof {
        assert(s@.take(n as int) =~= s@);
    }
    if over {
        None
    } else {
        Some(acc)
    }
}

/// Read the digits of `cs` from `start` on as a 32-bit unsigned integer.
pub fn parse_u32_radix_chars(cs: &Vec<char>, start: usize, radix: u32) -> (r: Option<u32>)
    requires
        2 <= radix <= 16,
        start <= cs@.len(),
    ensures
        r == spec_parse_u32_radix(cs@.skip(start as int), radix),
{
    let ghost u = cs@.skip(start as int);
    let n = cs.len();
    if start == n {
        return None;
    }
    let mut acc: u32 = 0;
    let mut over = false;
    let mut i: usize = start;
    while i < n
        invariant
            start <= i <= n,
            n == cs@.len(),
            u == cs@.skip(start as int),
            2 <= radix <= 16,
            forall|j: int| 0 <= j < i - start ==> spec_is_digit(u[j], radix),
            !over ==> acc == spec_digits_val(u.take(i - start), radix),
            over ==> spec_digits_val(u.take(i - start), radix) >= 0x100000000,
        decreases n - i,
    {
        let c = cs[i];
        let v = char_val(c);
        proof {
            assert(u[i - start] == cs@[i as int]);
        }
        if v >= radix {
            return None;
        }
        proof {
            assert(u.take(i - start + 1).drop_last() =~= u.take(i - start));
            assert(u.take(i - start + 1).last() == u[i - start]);
            assert(spec_digits_val(u.take(i - start + 1), radix) == spec_digits_val(
                u.take(i - start),
                radix,
            ) * (radix as nat) + (spec_char_val(u[i - start]) as nat));
        }
        if !over {
            if acc > (u32::MAX - v) / radix {
                over = true;
                proof {
                    assert(acc * radix + v >= 0x100000000) by (nonlinear_arith)
                        requires
                            acc > (0xFFFFFFFFu32 - v) / (radix as int),
                            2 <= radix <= 16,
                            v < radix,
                            acc <= 0xFFFFFFFF,
                    ;
                }
            } else {
                proof {
                    assert(acc * radix + v <= 0xFFFFFFFF) by (nonlinear_arith)
                        requires
                            acc <= (0xFFFFFFFFu32 - v) / (radix as int),
                            2 <= radix <= 16,
                            v < radix,
                    ;
                }
                acc = acc * radix + v;
            }
        } else {
            proof {
                assert(spec_digits_val(u.take(i - start), radix) * (radix as nat)
                    >= spec_digits_val(u.take(i - start), radix)) by (nonlinear_arith)
                    requires
                        radix >= 2,
                ;
            }
        }
        i += 1;
    }
    proof {
        assert(u.take(n - start) =~= u);
    }
    if over {
        None
    } else {
        Some(acc)
    }
}

/// The character for digit value `v` (lower case above nine).
pub open spec fn spec_digit_char(v: nat) -> char {
    if v == 0 {
        '0'
    } else if v == 1 {
        '1'
    } else if v == 2 {
        '2'
    } else if v == 3 {
        '3'
    } else if v == 4 {
        '4'
    } else if v == 5 {
        '5'
    } else if v == 6 {
        '6'
    } else if v == 7 {
        '7'
    } else if v == 8 {
        '8'
    } else if v == 9 {
        '9'
    } else if v == 10 {
        'a'
    } else if v == 11 {
        'b'
    } else if v == 12 {
        'c'
    } else if v == 13 {
        'd'
    } else if v == 14 {
        'e'
    } else {
        'f'
    }
}

/// The canonical digit string of `v` under `radix`: no sign, no leading
/// zeros, `"0"` for zero.
pub open spec fn spec_u32_radix_str(v: u32, radix: u32) -> Seq<char>
    decreases v,
{
    if radix < 2 {
        Seq::empty()  // radix below two is never used

    } else if v < radix {
        seq![spec_digit_char(v as nat)]
    } else {
        proof {
            assert(v >= radix >= 2 ==> v / radix < v) by (nonlinear_arith);
        }
        spec_u32_radix_str(v / radix, radix).push(spec_digit_char((v % radix) as nat))
    }
}

/// The canonical decimal digit string of `v`.
pub open spec fn spec_u32_dec(v: u32) -> Seq<char> {
    spec_u32_radix_str(v, 10)
}

pub(crate) fn digit_str(v: u32) -> (r: &'static str)
    requires
        v < 16,
    ensures
        r@ =~= seq![spec_digit_char(v as nat)],
{
    proof {
        reveal_strlit("0");
        reveal_strlit("1");
        reveal_strlit("2");
        reveal_strlit("3");
        reveal_strlit("4");
        reveal_strlit("5");
        reveal_strlit("6");
        reveal_strlit("7");
        reveal_strlit("8");
        reveal_strlit("9");
        reveal_strlit("a");
        reveal_strlit("b");
        reveal_strlit("c");
        reveal_strlit("d");
        reveal_strlit("e");
        reveal_strlit("f");
    }
    if v == 0 {
        "0"
    } else if v == 1 {
        "1"
    } else if v == 2 {
        "2"
    } else if v == 3 {
        "3"
    } else if v == 4 {
        "4"
    } else if v == 5 {
        "5"
    } else if v == 6 {
        "6"
    } else if v == 7 {
        "7"
    } else if v == 8 {
        "8"
    } else if v == 9 {
        "9"
    } else if v == 10 {
        "a"
    } else if v == 11 {
        "b"
    } else if v == 12 {
        "c"
    } else if v == 13 {
        "d"
    } else if v == 14 {
        "e"
    } else {
        "f"
    }
}

/// Write `v` in decimal.
pub fn u32_to_dec_string(v: u32) -> (r: String)
    ensures
        r@ == spec_u32_dec(v),
    decreases v,
{
    if v < 10 {
        let r = digit_str(v).to_owned();
        proof {
            assert(r@ =~= spec_u32_dec(v));
        }
        r
    } else {
        let mut r = u32_to_dec_string(v / 10);
        r.append(digit_str(v % 10));
        proof {
            assert(r@ =~= spec_u32_dec(v));
        }
        r
    }
}

/// The canonical decimal form of a signed 32-bit value: a `-` sign for
/// negative values, then the decimal digits of the magnitude.
pub open spec fn spec_i32_dec(v: i32) -> Seq<char> {
    if v < 0 {
        seq!['-'] + spec_u32_dec((-(v as int)) as u32)
    } else {
        spec_u32_dec(v as u32)
    }
}

/// Write `v` in signed decimal.
pub fn i32_to_dec_string(v: i32) -> (r: String)
    ensures
        r@ == spec_i32_dec(v),
{
    if v < 0 {
        let m: u32 = if v == i32::MIN {
            0x80000000
        } else {
            (-v) as u32
        };
        proof {
            reveal_strlit("-");
        }
        let mut r = "-".to_owned();
        let digits = u32_to_dec_string(m);
        r.append(digits.as_str());
        proof {
            assert(r@ =~= spec_i32_dec(v));
        }
        r
    } else {
        u32_to_dec_string(v as u32)
    }
}

proof fn lemma_digit_char_props(d: nat)
    requires
        d < 16,
    ensures
        spec_digit_char(d) != '_',
        spec_digit_char(d) != '-',
        lower_char(spec_digit_char(d)) == spec_digit_char(d),
        spec_digit_char(d) != 'x',
        spec_digit_char(d) != 'o',
        d != 11 ==> spec_digit_char(d) != 'b',
{
}

/// The canonical digit string of `v` holds only lower-case digit
/// characters: no sign, no underscore, and no radix-prefix letter other
/// than the hex digit `b` itself.
pub proof fn lemma_radix_str_chars(v: u32, radix: u32)
    requires
        2 <= radix <= 16,
    ensures
        forall|j: int|
            0 <= j < spec_u32_radix_str(v, radix).len() ==> {
                let c = #[trigger] spec_u32_radix_str(v, radix)[j];
                c != '_' && c != '-' && lower_char(c) == c && c != 'x' && c != 'o' && (radix <= 11
                    ==> c != 'b')
            },
    decreases v,
{
    let s = spec_u32_radix_str(v, radix);
    if v < radix {
        lemma_digit_char_props(v as nat);
    } else {
        assert(v / radix < v && v % radix < radix) by (nonlinear_arith)
            requires
                2 <= radix <= 16,
                v >= radix,
        ;
        lemma_radix_str_chars(v / radix, radix);
        lemma_digit_char_props((v % radix) as nat);
        let p = spec_u32_radix_str(v / radix, radix);
        assert(forall|j: int| 0 <= j < p.len() ==> s[j] == p[j]);
        assert(s[s.len() - 1] == spec_digit_char((v % radix) as nat));
    }
}

/// Reading back the canonical digit string of `v` yields `v` again.
pub proof fn lemma_radix_round_trip(v: u32, radix: u32)
    requires
        2 <= radix <= 16,
    ensures
        spec_parse_u32_radix(spec_u32_radix_str(v, radix), radix) == Some(v),
    decreases v,
{
    let s = spec_u32_radix_str(v, radix);
    if v < radix {
        assert(spec_char_val(spec_digit_char((v as nat))) == v as int);
        assert(s.drop_last() =~= Seq::<char>::empty());
        assert(spec_digits_val(Seq::<char>::empty(), radix) == 0);
        assert(s.len() == 1);
        assert(s.last() == spec_digit_char(v as nat));
        assert(spec_digits_val(s, radix) == spec_digits_val(s.drop_last(), radix) * (radix as nat)
            + (spec_char_val(s.last()) as nat));
        assert(spec_digits_val(s.drop_last(), radix) * (radix as nat) == 0) by (nonlinear_arith)
            requires
                spec_digits_val(s.drop_last(), radix) == 0,
        ;
        assert(spec_digits_val(s, radix) == v);
    } else {
        assert(v / radix < v && v / radix >= 1 && v % radix < radix) by (nonlinear_arith)
            requires
                2 <= radix <= 16,
                v >= radix,
        ;
        lemma_radix_round_trip(v / radix, radix);
        let p = spec_u32_radix_str(v / radix, radix);
        assert(s.drop_last() =~= p);
        assert(s.last() == spec_digit_char((v % radix) as nat));
        assert(spec_char_val(spec_digit_char(((v % radix) as nat))) == (v % radix) as int);
        assert(spec_digits_val(s, radix) == spec_digits_val(p, radix) * (radix as nat) + (v % radix)
            as nat);
        assert((v / radix) * (radix as nat) + (v % radix) as nat == v) by (nonlinear_arith)
            requires
                2 <= radix <= 16,
        ;
        assert(forall|j: int| 0 <= j < s.len() ==> spec_is_digit(s[j], radix)) by {
            assert(forall|j: int| 0 <= j < p.len() ==> spec_is_digit(p[j], radix));
            assert(forall|j: int| 0 <= j < p.len() ==> s[j] == p[j]);
            assert(spec_is_digit(s[s.len() - 1], radix));
        }
    }
}

} // verus!
