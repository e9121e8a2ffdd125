//! Character-level string helpers: equality, ASCII-case-insensitive
//! comparison, prefix tests, single-character search and substitution, and
//! space trimming. All of them are verified against sequence-level
//! specifications; nothing here allocates beyond its result.
use vstd::prelude::*;

verus! {

/// Code point of a character with ASCII upper case folded to lower case.
pub open spec fn lower_code(c: char) -> int {
    if 65 <= c as u32 && c as u32 <= 90 {
        c as u32 + 32
    } else {
        c as u32 as int
    }
}

/// Character equality up to ASCII case.
pub open spec fn char_eq_ci(a: char, b: char) -> bool {
    lower_code(a) == lower_code(b)
}

/// Sequence equality up to ASCII case.
pub open spec fn seq_eq_ci(a: Seq<char>, b: Seq<char>) -> bool {
    a.len() == b.len() && forall|i: int| 0 <= i < a.len() ==> char_eq_ci(
        #[trigger] a[i],
        b[i],
    )
}

/// Whether `p` is a prefix of `s`.
pub open spec fn spec_starts_with(s: Seq<char>, p: Seq<char>) -> bool {
    p.len() <= s.len() && s.take(p.len() as int) == p
}

/// Every occurrence of `from` replaced by `to`.
pub open spec fn spec_replace(s: Seq<char>, from: char, to: char) -> Seq<char> {
    s.map_values(
        |c: char|
            if c == from {
                to
            } else {
                c
            },
    )
}

/// Index of the first occurrence of `c` in `s`, or -1 when absent.
pub open spec fn find_char(s: Seq<char>, c: char) -> int
    decreases s.len(),
{
    if s.len() == 0 {
        -1
    } else if s.first() == c {
        0
    } else {
        let r = find_char(s.drop_first(), c);
        if r == -1 {
            -1
        } else {
            r + 1
        }
    }
}

/// What `find_char` returns: -1 exactly when `c` is absent, otherwise the
/// least index holding `c`.
pub proof fn lemma_find_char(s: Seq<char>, c: char)
    ensures
        find_char(s, c) == -1 ==> forall|i: int| 0 <= i < s.len() ==> s[i] != c,
        find_char(s, c) != -1 ==> {
            let k = find_char(s, c);
            &&& 0 <= k < s.len()
            &&& s[k] == c
            &&& forall|i: int| 0 <= i < k ==> s[i] != c
        },
    decreases s.len(),
{
    if s.len() != 0 && s.first() != c {
        lemma_find_char(s.drop_first(), c);
        let r = find_char(s.drop_first(), c);
        if r == -1 {
            assert forall|i: int| 0 <= i < s.len() implies s[i] != c by {
                if i > 0 {
                    assert(s.drop_first()[i - 1] != c);
                }
            }
        } else {
            assert(s[r + 1] == s.drop_first()[r]);
            assert forall|i: int| 0 <= i < r + 1 implies s[i] != c by {
                if i > 0 {
                    assert(s.drop_first()[i - 1] != c);
                }
            }
        }
    }
}

/// Exact string equality.
pub fn str_eq(a: &str, b: &str) -> (r: bool)
    ensures
        r == (a@ == b@),
{
    let na = a.unicode_len();
    let nb = b.unicode_len();
    if na != nb {
        return false;
    }
    let mut i: usize = 0;
    while i < na
        invariant
            0 <= i <= na,
            na == a@.len(),
            na == b@.len(),
            forall|j: int| 0 <= j < i ==> a@[j] == b@[j],
        decreases na - i,
    {
        if a.get_char(i) != b.get_char(i) {
            return false;
        }
        i += 1;
    }
    proof {
        assert(a@ =~= b@);
    }
    true
}

/// Character equality up to ASCII case, executably.
pub fn char_matches_ci(a: char, b: char) -> (r: bool)
    ensures
        r == char_eq_ci(a, b),
{
    let au: u32 = a as u32;
    let bu: u32 = b as u32;
    let al: u32 = if 65 <= au && au <= 90 {
        au + 32
    } else {
        au
    };
    let bl: u32 = if 65 <= bu && bu <= 90 {
        bu + 32
    } else {
        bu
    };
    al == bl
}

/// String equality up to ASCII case.
pub fn str_eq_ci(a: &str, b: &str) -> (r: bool)
    ensures
        r == seq_eq_ci(a@, b@),
{
    let na = a.unicode_len();
    let nb = b.unicode_len();
    if na != nb {
        return false;
    }
    let mut i: usize = 0;
    while i < na
        invariant
            0 <= i <= na,
            na == a@.len(),
            na == b@.len(),
            forall|j: int| 0 <= j < i ==> char_eq_ci(#[trigger] a@[j], b@[j]),
        decreases na - i,
    {
        if !char_matches_ci(a.get_char(i), b.get_char(i)) {
            return false;
        }
        i += 1;
    }
    true
}

/// Whether `s` starts with `p`.
pub fn starts_with_str(s: &str, p: &str) -> (r: bool)
    ensures
        r == spec_starts_with(s@, p@),
{
    let ns = s.unicode_len();
    let np = p.unicode_len();
    if np > ns {
        return false;
    }
    let mut i: usize = 0;
    while i < np
        invariant
            0 <= i <= np,
            np <= ns,
            ns == s@.len(),
            np == p@.len(),
            forall|j: int| 0 <= j < i ==> s@[j] == p@[j],
        decreases np - i,
    {
        if s.get_char(i) != p.get_char(i) {
            proof {
                assert(s@.take(p@.len() as int)[i as int] == s@[i as int]);
            }
            return false;
        }
        i += 1;
    }
    proof {
        assert(s@.take(p@.len() as int) =~= p@);
    }
    true
}

/// Index of the first occurrence of `c` in `s`.
pub fn find_in_str(s: &str, c: char) -> (r: Option<usize>)
    ensures
        r is None ==> find_char(s@, c) == -1,
        r matches Some(k) ==> find_char(s@, c) == k as int,
{
    let n = s.unicode_len();
    let mut i: usize = 0;
    while i < n
        invariant
            0 <= i <= n,
            n == s@.len(),
            forall|j: int| 0 <= j < i ==> s@[j] != c,
        decreases n - i,
    {
        if s.get_char(i) == c {
            proof {
                lemma_find_char(s@, c);
            }
            return Some(i);
        }
        i += 1;
    }
    proof {
        lemma_find_char(s@, c);
    }
    None
}

/// Copy of `s` with every occurrence of `from` replaced; `to_s` is the
/// one-character string to splice in.
pub fn replace_char(s: &str, from: char, to_s: &str) -> (r: String)
    requires
        to_s@.len() == 1,
    ensures
        r@ == spec_replace(s@, from, to_s@[0]),
{
    let n = s.unicode_len();
    let mut out = String::new();
    let mut i: usize = 0;
    while i < n
        invariant
            0 <= i <= n,
            n == s@.len(),
            to_s@.len() == 1,
            out@ == spec_replace(s@.take(i as int), from, to_s@[0]),
        decreases n - i,
    {
        let c = s.get_char(i);
        if c == from {
            out.append(to_s);
        } else {
            let piece = s.substring_char(i, i + 1);
            out.append(piece);
        }
        proof {
            assert(out@ =~= spec_replace(s@.take(i as int + 1), from, to_s@[0]));
        }
        i += 1;
    }
    proof {
        assert(s@.take(n as int) =~= s@);
    }
    out
}

/// Number of leading spaces.
pub open spec fn leading_spaces(s: Seq<char>) -> int
    decreases s.len(),
{
    if s.len() == 0 || s.first() != ' ' {
        0
    } else {
        1 + leading_spaces(s.drop_first())
    }
}

/// Number of trailing spaces.
pub open spec fn trailing_spaces(s: Seq<char>) -> int
    decreases s.len(),
{
    if s.len() == 0 || s.last() != ' ' {
        0
    } else {
        1 + trailing_spaces(s.drop_last())
    }
}

/// The string with leading and trailing spaces removed.
pub open spec fn spec_trim(s: Seq<char>) -> Seq<char> {
    if leading_spaces(s) == s.len() {
        Seq::<char>::empty()
    } else {
        s.subrange(leading_spaces(s), s.len() - trailing_spaces(s))
    }
}

proof fn lemma_leading_spaces(s: Seq<char>, k: int)
    requires
        0 <= k <= s.len(),
        forall|j: int| 0 <= j < k ==> s[j] == ' ',
        k < s.len() ==> s[k] != ' ',
    ensures
        leading_spaces(s) == k,
    decreases s.len(),
{
    if s.len() != 0 && s.first() == ' ' {
        lemma_leading_spaces(s.drop_first(), k - 1);
    }
}

proof fn lemma_trailing_spaces(s: Seq<char>, k: int)
    requires
        0 <= k <= s.len(),
        forall|j: int| s.len() - k <= j < s.len() ==> s[j] == ' ',
        k < s.len() ==> s[s.len() - k - 1] != ' ',
    ensures
        trailing_spaces(s) == k,
    decreases s.len(),
{
    if s.len() != 0 && s.last() == ' ' {
        lemma_trailing_spaces(s.drop_last(), k - 1);
    }
}

/// Copy of `s` without leading or trailing spaces.
pub fn trim_spaces(s: &str) -> (r: String)
    ensures
        r@ == spec_trim(s@),
{
    let n = s.unicode_len();
    let mut b: usize = 0;
    while b < n && s.get_char(b) == ' '
        invariant
            0 <= b <= n,
            n == s@.len(),
            forall|j: int| 0 <= j < b ==> s@[j] == ' ',
        decreases n - b,
    {
        b += 1;
    }
    if b == n {
        proof {
            lemma_leading_spaces(s@, n as int);
        }
        return String::new();
    }
    proof {
        lemma_leading_spaces(s@, b as int);
    }
    let mut e: usize = n;
    while e > b && s.get_char(e - 1) == ' '
        invariant
            b < e <= n,
            n == s@.len(),
            b < n,
            s@[b as int] != ' ',
            forall|j: int| e <= j < n ==> s@[j] == ' ',
        decreases e,
    {
        e -= 1;
    }
    proof {
        lemma_trailing_spaces(s@, n as int - e as int);
    }
    let piece = s.substring_char(b, e);
    piece.to_owned()
}

} // verus!
