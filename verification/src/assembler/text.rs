//! Character and token utilities shared by the operand parsers and the line
//! dispatcher: whitespace handling, case folding, string comparison, and
//! whitespace tokenization with trailing-comma stripping.
//!
//! Whitespace here means ASCII whitespace; assembly source is ASCII text.

use vstd::prelude::*;
use vstd::string::StrSliceExecFns;

verus! {

/// ASCII whitespace: space, tab, line feed, vertical tab, form feed,
/// carriage return.
pub open spec fn is_space(c: char) -> bool {
    c == ' ' || c == '\t' || c == '\n' || c == '\u{b}' || c == '\u{c}' || c == '\r'
}

pub fn char_is_space(c: char) -> (r: bool)
    ensures
        r == is_space(c),
{
    c == ' ' || c == '\t' || c == '\n' || c == '\u{b}' || c == '\u{c}' || c == '\r'
}

/// ASCII case folding of one character: `A-Z` map to `a-z`, everything
/// else is unchanged.
pub open spec fn lower_char(c: char) -> char {
    if c == 'A' {
        'a'
    } else if c == 'B' {
        'b'
    } else if c == 'C' {
        'c'
    } else if c == 'D' {
        'd'
    } else if c == 'E' {
        'e'
    } else if c == 'F' {
        'f'
    } else if c == 'G' {
        'g'
    } else if c == 'H' {
        'h'
    } else if c == 'I' {
        'i'
    } else if c == 'J' {
        'j'
    } else if c == 'K' {
        'k'
    } else if c == 'L' {
        'l'
    } else if c == 'M' {
        'm'
    } else if c == 'N' {
        'n'
    } else if c == 'O' {
        'o'
    } else if c == 'P' {
        'p'
    } else if c == 'Q' {
        'q'
    } else if c == 'R' {
        'r'
    } else if c == 'S' {
        's'
    } else if c == 'T' {
        't'
    } else if c == 'U' {
        'u'
    } else if c == 'V' {
        'v'
    } else if c == 'W' {
        'w'
    } else if c == 'X' {
        'x'
    } else if c == 'Y' {
        'y'
    } else if c == 'Z' {
        'z'
    } else {
        c
    }
}

/// ASCII case folding of a whole string.
pub open spec fn spec_lower(s: Seq<char>) -> Seq<char> {
    s.map_values(|c: char| lower_char(c))
}

pub fn char_lower(c: char) -> (r: char)
    ensures
        r == lower_char(c),
{
    match c {
        'A' => 'a',
        'B' => 'b',
        'C' => 'c',
        'D' => 'd',
        'E' => 'e',
        'F' => 'f',
        'G' => 'g',
        'H' => 'h',
        'I' => 'i',
        'J' => 'j',
        'K' => 'k',
        'L' => 'l',
        'M' => 'm',
        'N' => 'n',
        'O' => 'o',
        'P' => 'p',
        'Q' => 'q',
        'R' => 'r',
        'S' => 's',
        'T' => 't',
        'U' => 'u',
        'V' => 'v',
        'W' => 'w',
        'X' => 'x',
        'Y' => 'y',
        'Z' => 'z',
        _ => c,
    }
}

/// Compare `a`, folded to lower case, against `b` (given in lower case).
pub fn str_eq_lower(a: &str, b: &str) -> (r: bool)
    ensures
        r == (spec_lower(a@) == b@),
{
    let na = a.unicode_len();
    let nb = b.unicode_len();
    if na != nb {
        proof {
            assert(spec_lower(a@).len() == a@.len());
        }
        return false;
    }
    let mut i: usize = 0;
    while i < na
        invariant
            i <= na,
            na == a@.len(),
            na == b@.len(),
            forall|j: int| 0 <= j < i ==> lower_char(a@[j]) == b@[j],
        decreases na - i,
    {
        if char_lower(a.get_char(i)) != b.get_char(i) {
            proof {
                assert(spec_lower(a@)[i as int] == lower_char(a@[i as int]));
            }
            return false;
        }
        i += 1;
    }
    proof {
        assert(spec_lower(a@) =~= b@);
    }
    true
}

/// Compare two string slices by contents.
pub fn str_eq(a: &str, b: &str) -> (r: bool)
    ensures
        r == (a@ == b@),
{
    let na = a.unicode_len();
    let nb = b.unicode_len();
    if na != nb {
        return false;
    }
    let mut i: usize = 0;
    while i < na
        invariant
            i <= na,
            na == a@.len(),
            na == b@.len(),
            forall|j: int| 0 <= j < i ==> a@[j] == b@[j],
        decreases na - i,
    {
        if a.get_char(i) != b.get_char(i) {
            return false;
        }
        i += 1;
    }
    proof {
        assert(a@ =~= b@);
    }
    true
}

/// First occurrence of `c` in `s`, if any.
pub fn find_char(s: &str, c: char) -> (r: Option<usize>)
    ensures
        match r {
            Some(i) => i < s@.len() && s@[i as int] == c && (forall|j: int|
                0 <= j < i ==> s@[j] != c),
            None => forall|j: int| 0 <= j < s@.len() ==> s@[j] != c,
        },
{
    let n = s.unicode_len();
    let mut i: usize = 0;
    while i < n
        invariant
            i <= n,
            n == s@.len(),
            forall|j: int| 0 <= j < i ==> s@[j] != c,
        decreases n - i,
    {
        if s.get_char(i) == c {
            return Some(i);
        }
        i += 1;
    }
    None
}

/// `s` with leading ASCII whitespace removed.
pub open spec fn spec_trim_start(s: Seq<char>) -> Seq<char>
    decreases s.len(),
{
    if s.len() > 0 && is_space(s[0]) {
        spec_trim_start(s.skip(1))
    } else {
        s
    }
}

/// `s` with trailing ASCII whitespace removed.
pub open spec fn spec_trim_end(s: Seq<char>) -> Seq<char>
    decreases s.len(),
{
    if s.len() > 0 && is_space(s.last()) {
        spec_trim_end(s.drop_last())
    } else {
        s
    }
}

/// `s` with both leading and trailing ASCII whitespace removed.
pub open spec fn spec_trim(s: Seq<char>) -> Seq<char> {
    spec_trim_end(spec_trim_start(s))
}

proof fn lemma_trim_start_range(s: Seq<char>, a: int)
    requires
        0 <= a <= s.len(),
        forall|j: int| 0 <= j < a ==> is_space(s[j]),
        a < s.len() ==> !is_space(s[a]),
    ensures
        spec_trim_start(s) =~= s.skip(a),
    decreases a,
{
    if a == 0 {
        if s.len() > 0 {
            assert(!is_space(s[0]));
        }
        assert(spec_trim_start(s) =~= s.skip(0));
    } else {
        assert(is_space(s[0]));
        lemma_trim_start_range(s.skip(1), a - 1);
        assert(s.skip(1).skip(a - 1) =~= s.skip(a));
    }
}

proof fn lemma_trim_end_range(s: Seq<char>, b: int)
    requires
        0 <= b <= s.len(),
        forall|j: int| b <= j < s.len() ==> is_space(s[j]),
        b > 0 ==> !is_space(s[b - 1]),
    ensures
        spec_trim_end(s) =~= s.take(b),
    decreases s.len() - b,
{
    if b == s.len() {
        if s.len() > 0 {
            assert(!is_space(s.last()));
        }
        assert(spec_trim_end(s) =~= s.take(b));
    } else {
        assert(is_space(s.last()));
        lemma_trim_end_range(s.drop_last(), b);
        assert(s.drop_last().take(b) =~= s.take(b));
    }
}

proof fn lemma_trim_start_head(s: Seq<char>)
    ensures
        spec_trim_start(s).len() > 0 ==> !is_space(spec_trim_start(s)[0]),
    decreases s.len(),
{
    if s.len() > 0 && is_space(s[0]) {
        lemma_trim_start_head(s.skip(1));
    }
}

proof fn lemma_trim_end_head(s: Seq<char>)
    ensures
        spec_trim_end(s).len() > 0 ==> spec_trim_end(s)[0] == s[0],
        spec_trim_end(s).len() <= s.len(),
    decreases s.len(),
{
    if s.len() > 0 && is_space(s.last()) {
        lemma_trim_end_head(s.drop_last());
    }
}

/// A non-empty trimmed string starts with a non-whitespace character.
pub proof fn lemma_trim_head(s: Seq<char>)
    ensures
        spec_trim(s).len() > 0 ==> !is_space(spec_trim(s)[0]),
{
    lemma_trim_start_head(s);
    lemma_trim_end_head(spec_trim_start(s));
}

proof fn lemma_trim_end_last(s: Seq<char>)
    ensures
        spec_trim_end(s).len() > 0 ==> !is_space(spec_trim_end(s).last()),
    decreases s.len(),
{
    if s.len() > 0 && is_space(s.last()) {
        lemma_trim_end_last(s.drop_last());
    }
}

/// Trimming is idempotent.
pub proof fn lemma_trim_idempotent(s: Seq<char>)
    ensures
        spec_trim(spec_trim(s)) == spec_trim(s),
{
    let t = spec_trim(s);
    lemma_trim_head(s);
    lemma_trim_end_last(spec_trim_start(s));
    if t.len() > 0 {
        assert(spec_trim_start(t) == t);
        assert(spec_trim_end(t) == t);
    } else {
        assert(spec_trim_start(t) =~= t);
        assert(spec_trim_end(t) =~= t);
    }
}

proof fn lemma_trim_start_chars(s: Seq<char>, c: char)
    requires
        forall|j: int| 0 <= j < s.len() ==> s[j] != c,
    ensures
        forall|j: int| 0 <= j < spec_trim_start(s).len() ==> spec_trim_start(s)[j] != c,
    decreases s.len(),
{
    if s.len() > 0 && is_space(s[0]) {
        assert(forall|j: int| 0 <= j < s.skip(1).len() ==> s.skip(1)[j] == s[j + 1]);
        lemma_trim_start_chars(s.skip(1), c);
        assert(spec_trim_start(s) == spec_trim_start(s.skip(1)));
    } else {
        assert forall|j: int| 0 <= j < spec_trim_start(s).len() implies spec_trim_start(s)[j]
            != c by {
            assert(spec_trim_start(s)[j] == s[j]);
        }
    }
}

proof fn lemma_trim_end_chars(s: Seq<char>, c: char)
    requires
        forall|j: int| 0 <= j < s.len() ==> s[j] != c,
    ensures
        forall|j: int| 0 <= j < spec_trim_end(s).len() ==> spec_trim_end(s)[j] != c,
    decreases s.len(),
{
    if s.len() > 0 && is_space(s.last()) {
        assert(forall|j: int| 0 <= j < s.drop_last().len() ==> s.drop_last()[j] == s[j]);
        lemma_trim_end_chars(s.drop_last(), c);
        assert(spec_trim_end(s) == spec_trim_end(s.drop_last()));
    } else {
        assert forall|j: int| 0 <= j < spec_trim_end(s).len() implies spec_trim_end(s)[j] != c by {
            assert(spec_trim_end(s)[j] == s[j]);
        }
    }
}

/// A character absent from a string is absent from its trimmed form.
pub proof fn lemma_trim_chars(s: Seq<char>, c: char)
    requires
        forall|j: int| 0 <= j < s.len() ==> s[j] != c,
    ensures
        forall|j: int| 0 <= j < spec_trim(s).len() ==> spec_trim(s)[j] != c,
{
    lemma_trim_start_chars(s, c);
    lemma_trim_end_chars(spec_trim_start(s), c);
}

/// Slice of `s` with leading and trailing ASCII whitespace removed.
pub fn trim(s: &str) -> (r: &str)
    ensures
        r@ == spec_trim(s@),
{
    let n = s.unicode_len();
    let mut a: usize = 0;
    while a < n && char_is_space(s.get_char(a))
        invariant
            a <= n,
            n == s@.len(),
            forall|j: int| 0 <= j < a ==> is_space(s@[j]),
        decreases n - a,
    {
        a += 1;
    }
    proof {
        lemma_trim_start_range(s@, a as int);
    }
    let mut b: usize = n;
    while b > a && char_is_space(s.get_char(b - 1))
        invariant
            a <= b <= n,
            n == s@.len(),
            forall|j: int| b <= j < n ==> is_space(s@[j]),
        decreases b,
    {
        b -= 1;
    }
    proof {
        assert(forall|j: int| b <= j < s@.skip(a as int).len() ==> is_space(s@.skip(a as int)[j]));
        lemma_trim_end_range(s@.skip(a as int), b - a);
        if b > a {
            assert(!is_space(s@.skip(a as int)[b - a - 1]));
        }
    }
    let r = s.substring_char(a, b);
    proof {
        assert(r@ =~= s@.skip(a as int).take(b - a));
    }
    r
}

/// Index of the first occurrence of `c` in `s`, or `s.len()` if `c` does
/// not occur.
pub open spec fn spec_index_of(s: Seq<char>, c: char) -> int
    decreases s.len(),
{
    if s.len() == 0 {
        0
    } else if s[0] == c {
        0
    } else {
        1 + spec_index_of(s.skip(1), c)
    }
}

pub proof fn lemma_index_of(s: Seq<char>, c: char)
    ensures
        0 <= spec_index_of(s, c) <= s.len(),
        spec_index_of(s, c) < s.len() ==> s[spec_index_of(s, c)] == c,
        forall|j: int| 0 <= j < spec_index_of(s, c) ==> s[j] != c,
        spec_index_of(s, c) == s.len() ==> !s.contains(c),
        s.contains(c) ==> spec_index_of(s, c) < s.len(),
    decreases s.len(),
{
    if s.len() == 0 {
        assert(!s.contains(c));
    } else if s[0] == c {
        assert(s.contains(c));
    } else {
        lemma_index_of(s.skip(1), c);
        let i = spec_index_of(s, c);
        assert(forall|j: int| 1 <= j < i ==> s[j] == s.skip(1)[j - 1]);
        if i == s.len() {
            assert forall|j: int| 0 <= j < s.len() implies s[j] != c by {
                if j >= 1 {
                    assert(s[j] == s.skip(1)[j - 1]);
                }
            }
            assert(!s.contains(c));
        } else {
            assert(s[i] == s.skip(1)[i - 1]);
            assert(s.contains(c));
        }
    }
}

/// `s` with every underscore removed.
pub open spec fn spec_strip_underscores(s: Seq<char>) -> Seq<char>
    decreases s.len(),
{
    if s.len() == 0 {
        Seq::empty()
    } else if s.last() == '_' {
        spec_strip_underscores(s.drop_last())
    } else {
        spec_strip_underscores(s.drop_last()).push(s.last())
    }
}

/// Stripping underscores from a string without any is the identity.
pub proof fn lemma_no_underscores(s: Seq<char>)
    requires
        forall|j: int| 0 <= j < s.len() ==> s[j] != '_',
    ensures
        spec_strip_underscores(s) == s,
    decreases s.len(),
{
    if s.len() > 0 {
        lemma_no_underscores(s.drop_last());
        assert(s.drop_last().push(s.last()) =~= s);
    } else {
        assert(spec_strip_underscores(s) =~= s);
    }
}

/// Case folding a string without upper-case letters is the identity.
pub proof fn lemma_lower_identity(s: Seq<char>)
    requires
        forall|j: int| 0 <= j < s.len() ==> lower_char(s[j]) == s[j],
    ensures
        spec_lower(s) == s,
{
    assert(spec_lower(s) =~= s);
}

/// The characters of `s` with every underscore removed.
pub fn strip_underscores(s: &str) -> (cs: Vec<char>)
    ensures
        cs@ == spec_strip_underscores(s@),
{
    let n = s.unicode_len();
    let mut cs: Vec<char> = Vec::new();
    let mut i: usize = 0;
    proof {
        assert(s@.take(0) =~= Seq::<char>::empty());
    }
    while i < n
        invariant
            i <= n,
            n == s@.len(),
            cs@ == spec_strip_underscores(s@.take(i as int)),
        decreases n - i,
    {
        let c = s.get_char(i);
        proof {
            assert(s@.take(i + 1).drop_last() =~= s@.take(i as int));
            assert(s@.take(i + 1).last() == s@[i as int]);
        }
        if c != '_' {
            cs.push(c);
        }
        i += 1;
    }
    proof {
        assert(s@.take(n as int) =~= s@);
    }
    cs
}

/// Whitespace splitting, accumulating the current token in `cur`: the
/// maximal non-whitespace runs of `cur + s`, in order.
pub open spec fn spec_split_ws_rec(s: Seq<char>, cur: Seq<char>) -> Seq<Seq<char>>
    decreases s.len(),
{
    if s.len() == 0 {
        if cur.len() > 0 {
            seq![cur]
        } else {
            Seq::empty()
        }
    } else if is_space(s[0]) {
        if cur.len() > 0 {
            seq![cur] + spec_split_ws_rec(s.skip(1), Seq::empty())
        } else {
            spec_split_ws_rec(s.skip(1), Seq::empty())
        }
    } else {
        spec_split_ws_rec(s.skip(1), cur.push(s[0]))
    }
}

/// The maximal non-whitespace runs of `s`, in order.
pub open spec fn spec_split_ws(s: Seq<char>) -> Seq<Seq<char>> {
    spec_split_ws_rec(s, Seq::empty())
}

/// `t` with every trailing comma removed.
pub open spec fn spec_strip_commas(t: Seq<char>) -> Seq<char>
    decreases t.len(),
{
    if t.len() > 0 && t.last() == ',' {
        spec_strip_commas(t.drop_last())
    } else {
        t
    }
}

/// The operand tokens of a line: whitespace-separated words, each with its
/// trailing commas stripped.
pub open spec fn spec_tokens(s: Seq<char>) -> Seq<Seq<char>> {
    spec_split_ws(s).map_values(|t: Seq<char>| spec_strip_commas(t))
}

proof fn lemma_split_ws_rec_some(s: Seq<char>, cur: Seq<char>)
    requires
        cur.len() > 0,
    ensures
        spec_split_ws_rec(s, cur).len() >= 1,
    decreases s.len(),
{
    if s.len() > 0 && !is_space(s[0]) {
        lemma_split_ws_rec_some(s.skip(1), cur.push(s[0]));
    }
}

/// A string that starts with a non-whitespace character yields at least one
/// token.
pub proof fn lemma_tokens_nonempty(s: Seq<char>)
    requires
        s.len() > 0,
        !is_space(s[0]),
    ensures
        spec_tokens(s).len() >= 1,
{
    lemma_split_ws_rec_some(s.skip(1), Seq::empty().push(s[0]));
}

proof fn lemma_strip_commas_range(t: Seq<char>, b: int)
    requires
        0 <= b <= t.len(),
        forall|j: int| b <= j < t.len() ==> t[j] == ',',
        b > 0 ==> t[b - 1] != ',',
    ensures
        spec_strip_commas(t) =~= t.take(b),
    decreases t.len() - b,
{
    if b == t.len() {
        if t.len() > 0 {
            assert(t.last() != ',');
        }
        assert(spec_strip_commas(t) =~= t.take(b));
    } else {
        assert(t.last() == ',');
        lemma_strip_commas_range(t.drop_last(), b);
        assert(t.drop_last().take(b) =~= t.take(b));
    }
}

/// `t` with its trailing commas removed.
pub fn strip_trailing_commas<'a>(t: &'a str) -> (r: &'a str)
    ensures
        r@ == spec_strip_commas(t@),
{
    let n = t.unicode_len();
    let mut b: usize = n;
    while b > 0 && t.get_char(b - 1) == ','
        invariant
            b <= n,
            n == t@.len(),
            forall|j: int| b <= j < n ==> t@[j] == ',',
        decreases b,
    {
        b -= 1;
    }
    proof {
        lemma_strip_commas_range(t@, b as int);
    }
    let r = t.substring_char(0, b);
    proof {
        assert(r@ =~= t@.take(b as int));
    }
    r
}

/// Split `s` on ASCII whitespace into its maximal non-whitespace runs.
pub fn split_whitespace_runs<'a>(s: &'a str) -> (toks: Vec<&'a str>)
    ensures
        toks.deep_view() == spec_split_ws(s@),
{
    let n = s.unicode_len();
    let mut toks: Vec<&str> = Vec::new();
    let mut i: usize = 0;
    proof {
        assert(s@.skip(0) =~= s@);
        assert(toks.deep_view() + spec_split_ws_rec(s@, Seq::empty()) =~= spec_split_ws_rec(
            s@,
            Seq::empty(),
        ));
    }
    while i < n
        invariant
            i <= n,
            n == s@.len(),
            spec_split_ws(s@) == toks.deep_view() + spec_split_ws_rec(
                s@.skip(i as int),
                Seq::empty(),
            ),
        decreases n - i,
    {
        let c = s.get_char(i);
        if char_is_space(c) {
            proof {
                assert(s@.skip(i as int).skip(1) =~= s@.skip(i + 1));
            }
            i += 1;
        } else {
            let start = i;
            i += 1;
            proof {
                assert(s@.skip(start as int).skip(1) =~= s@.skip(start + 1));
                assert(Seq::<char>::empty().push(s@[start as int]) =~= s@.subrange(
                    start as int,
                    i as int,
                ));
            }
            while i < n && !char_is_space(s.get_char(i))
                invariant
                    start < i <= n,
                    n == s@.len(),
                    spec_split_ws_rec(s@.skip(start as int), Seq::empty()) == spec_split_ws_rec(
                        s@.skip(i as int),
                        s@.subrange(start as int, i as int),
                    ),
                decreases n - i,
            {
                proof {
                    assert(s@.skip(i as int).skip(1) =~= s@.skip(i + 1));
                    assert(s@.subrange(start as int, i as int).push(s@[i as int]) =~= s@.subrange(
                        start as int,
                        i + 1,
                    ));
                }
                i += 1;
            }
            let tok = s.substring_char(start, i);
            proof {
                assert(tok@ =~= s@.subrange(start as int, i as int));
                assert(s@.subrange(start as int, i as int).len() > 0);
                if i < n {
                    assert(is_space(s@.skip(i as int)[0]));
                }
                assert(spec_split_ws_rec(s@.skip(i as int), s@.subrange(start as int, i as int))
                    == seq![s@.subrange(start as int, i as int)] + spec_split_ws_rec(
                    s@.skip(i as int),
                    Seq::empty(),
                ));
            }
            let ghost old_toks = toks.deep_view();
            toks.push(tok);
            proof {
                assert(toks.deep_view() =~= old_toks.push(tok@));
                assert(toks.deep_view() + spec_split_ws_rec(s@.skip(i as int), Seq::empty())
                    =~= old_toks + (seq![tok@] + spec_split_ws_rec(
                    s@.skip(i as int),
                    Seq::empty(),
                )));
            }
        }
    }
    proof {
        assert(s@.skip(n as int) =~= Seq::<char>::empty());
        assert(spec_split_ws_rec(Seq::<char>::empty(), Seq::<char>::empty())
            =~= Seq::<Seq<char>>::empty());
        assert(toks.deep_view() =~= toks.deep_view() + Seq::<Seq<char>>::empty());
    }
    toks
}

/// Tokenize a line: split on whitespace, then strip each token's trailing
/// commas.
pub fn tokenize<'a>(s: &'a str) -> (toks: Vec<&'a str>)
    ensures
        toks.deep_view() == spec_tokens(s@),
{
    let words = split_whitespace_runs(s);
    let mut toks: Vec<&str> = Vec::new();
    let mut i: usize = 0;
    while i < words.len()
        invariant
            i <= words.len(),
            words.deep_view() == spec_split_ws(s@),
            toks.deep_view() =~= spec_split_ws(s@).take(i as int).map_values(
                |t: Seq<char>| spec_strip_commas(t),
            ),
        decreases words.len() - i,
    {
        let t = strip_trailing_commas(words[i]);
        toks.push(t);
        proof {
            assert(words.deep_view()[i as int] == words@[i as int]@);
            assert(spec_split_ws(s@).take(i + 1).map_values(
                |t: Seq<char>| spec_strip_commas(t),
            ) =~= spec_split_ws(s@).take(i as int).map_values(
                |t: Seq<char>| spec_strip_commas(t),
            ).push(spec_strip_commas(spec_split_ws(s@)[i as int])));
        }
        i += 1;
    }
    proof {
        assert(spec_split_ws(s@).take(words.deep_view().len() as int) =~= spec_split_ws(s@));
    }
    toks
}

} // verus!
