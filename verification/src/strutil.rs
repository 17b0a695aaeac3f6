//! Verified helpers on strings: whitespace trimming, first-character tests,
//! equality, case-insensitive comparison and decimal formatting.

use vstd::prelude::*;
use vstd::string::StrSliceExecFns;
use vstd::string::StringExecFns;

verus! {

/// A character with the Unicode `White_Space` property, the set that
/// `str::trim` strips from both ends.
pub open spec fn is_ws_char(c: char) -> bool {
    let u = c as u32;
    u == 0x09 || u == 0x0A || u == 0x0B || u == 0x0C || u == 0x0D || u == 0x20 || u == 0x85 || u
        == 0xA0 || u == 0x1680 || (0x2000 <= u && u <= 0x200A) || u == 0x2028 || u == 0x2029 || u
        == 0x202F || u == 0x205F || u == 0x3000
}

pub fn is_ws(c: char) -> (r: bool)
    ensures
        r == is_ws_char(c),
{
    let u: u32 = c as u32;
    u == 0x09 || u == 0x0A || u == 0x0B || u == 0x0C || u == 0x0D || u == 0x20 || u == 0x85 || u
        == 0xA0 || u == 0x1680 || (0x2000 <= u && u <= 0x200A) || u == 0x2028 || u == 0x2029 || u
        == 0x202F || u == 0x205F || u == 0x3000
}

/// The sequence with leading whitespace removed.
pub open spec fn trim_start_spec(s: Seq<char>) -> Seq<char>
    decreases s.len(),
{
    if s.len() == 0 {
        s
    } else if is_ws_char(s[0]) {
        trim_start_spec(s.drop_first())
    } else {
        s
    }
}

/// The sequence with trailing whitespace removed.
pub open spec fn trim_end_spec(s: Seq<char>) -> Seq<char>
    decreases s.len(),
{
    if s.len() == 0 {
        s
    } else if is_ws_char(s[s.len() - 1]) {
        trim_end_spec(s.drop_last())
    } else {
        s
    }
}

/// The sequence with whitespace removed from both ends, as `str::trim` does.
pub open spec fn trim_spec(s: Seq<char>) -> Seq<char> {
    trim_end_spec(trim_start_spec(s))
}

proof fn lemma_trim_start_subrange(s: Seq<char>, i: int)
    requires
        0 <= i <= s.len(),
        forall|j: int| 0 <= j < i ==> is_ws_char(s[j]),
        i < s.len() ==> !is_ws_char(s[i]),
    ensures
        trim_start_spec(s) =~= s.subrange(i, s.len() as int),
    decreases i,
{
    if i == 0 {
        if s.len() == 0 {
            assert(trim_start_spec(s) =~= s.subrange(0, s.len() as int));
        } else {
            assert(!is_ws_char(s[0]));
            assert(trim_start_spec(s) =~= s.subrange(0, s.len() as int));
        }
    } else {
        assert(is_ws_char(s[0]));
        let t = s.drop_first();
        assert(forall|j: int| 0 <= j < i - 1 ==> is_ws_char(#[trigger] t[j]));
        lemma_trim_start_subrange(t, i - 1);
        assert(t.subrange(i - 1, t.len() as int) =~= s.subrange(i, s.len() as int));
    }
}

proof fn lemma_trim_end_subrange(s: Seq<char>, j: int)
    requires
        0 <= j <= s.len(),
        forall|k: int| j <= k < s.len() ==> is_ws_char(s[k]),
        j > 0 ==> !is_ws_char(s[j - 1]),
    ensures
        trim_end_spec(s) =~= s.subrange(0, j),
    decreases s.len(),
{
    if j == s.len() {
        if s.len() == 0 {
            assert(trim_end_spec(s) =~= s.subrange(0, j));
        } else {
            assert(!is_ws_char(s[s.len() - 1]));
            assert(trim_end_spec(s) =~= s.subrange(0, j));
        }
    } else {
        assert(is_ws_char(s[s.len() - 1]));
        let t = s.drop_last();
        lemma_trim_end_subrange(t, j);
        assert(t.subrange(0, j) =~= s.subrange(0, j));
    }
}

/// Index of the first character that is not whitespace, or the length when
/// every character is whitespace.
pub fn first_non_ws_index(s: &str) -> (i: usize)
    ensures
        i <= s@.len(),
        forall|j: int| 0 <= j < i ==> is_ws_char(s@[j]),
        i < s@.len() ==> !is_ws_char(s@[i as int]),
{
    let n: usize = s.unicode_len();
    let mut i: usize = 0;
    while i < n
        invariant
            i <= n,
            n == s@.len(),
            forall|j: int| 0 <= j < i ==> is_ws_char(s@[j]),
        decreases n - i,
    {
        let c = s.get_char(i);
        if !is_ws(c) {
            return i;
        }
        i = i + 1;
    }
    i
}

/// One past the index of the last character that is not whitespace, or zero
/// when every character is whitespace.
pub fn end_non_ws_index(s: &str) -> (j: usize)
    ensures
        j <= s@.len(),
        forall|k: int| j <= k < s@.len() ==> is_ws_char(s@[k]),
        j > 0 ==> !is_ws_char(s@[j - 1]),
{
    let n: usize = s.unicode_len();
    let mut j: usize = n;
    while j > 0
        invariant
            j <= n,
            n == s@.len(),
            forall|k: int| j <= k < s@.len() ==> is_ws_char(s@[k]),
        decreases j,
    {
        let c = s.get_char(j - 1);
        if !is_ws(c) {
            return j;
        }
        j = j - 1;
    }
    j
}

/// Whitespace removed from both ends, exactly `trim_spec` of the input.
pub fn trim_str(s: &str) -> (r: String)
    ensures
        r@ == trim_spec(s@),
{
    let i = first_non_ws_index(s);
    let j = end_non_ws_index(s);
    if i >= j {
        proof {
            lemma_trim_start_subrange(s@, i as int);
            // Every character is whitespace up to i and from j on; with
            // j <= i the whole string is whitespace.
            assert(forall|k: int| 0 <= k < s@.len() ==> is_ws_char(s@[k]));
            lemma_trim_start_subrange(s@, s@.len() as int);
            let t = trim_start_spec(s@);
            assert(t =~= s@.subrange(s@.len() as int, s@.len() as int));
            assert(t.len() == 0);
            assert(trim_end_spec(t) =~= Seq::<char>::empty());
        }
        String::new()
    } else {
        proof {
            lemma_trim_start_subrange(s@, i as int);
            let t = trim_start_spec(s@);
            assert(t =~= s@.subrange(i as int, s@.len() as int));
            assert(forall|k: int|
                j - i <= k < t.len() ==> is_ws_char(#[trigger] t[k]) && t[k] == s@[k + i]);
            assert(!is_ws_char(t[j - i - 1]));
            lemma_trim_end_subrange(t, j - i);
            assert(trim_end_spec(t) =~= s@.subrange(i as int, j as int));
        }
        let piece = s.substring_char(i, j);
        String::from_str(piece)
    }
}

/// The trimmed contents when anything remains, absent otherwise: the rule for
/// deriving a prompt from the contents of a prompt file.
pub fn trimmed_nonempty(s: &str) -> (r: Option<String>)
    ensures
        trim_spec(s@).len() == 0 ==> r is None,
        trim_spec(s@).len() > 0 ==> (r matches Some(t) && t@ == trim_spec(s@)),
{
    let t = trim_str(s);
    if t.as_str().unicode_len() == 0 {
        None
    } else {
        Some(t)
    }
}

/// The first character that is not whitespace, if any.
pub open spec fn first_non_ws_spec(s: Seq<char>) -> Option<char> {
    let t = trim_start_spec(s);
    if t.len() == 0 {
        None
    } else {
        Some(t[0])
    }
}

/// Whether the first character that is not whitespace is `c`.
pub fn first_non_ws_is(s: &str, c: char) -> (r: bool)
    ensures
        r == (first_non_ws_spec(s@) == Some(c)),
{
    let i = first_non_ws_index(s);
    proof {
        lemma_trim_start_subrange(s@, i as int);
    }
    let n: usize = s.unicode_len();
    if i < n {
        s.get_char(i) == c
    } else {
        false
    }
}

/// Character-wise equality of two string slices.
pub fn str_eq(a: &str, b: &str) -> (r: bool)
    ensures
        r == (a@ == b@),
{
    let na: usize = a.unicode_len();
    let nb: usize = b.unicode_len();
    if na != nb {
        return false;
    }
    let mut i: usize = 0;
    while i < na
        invariant
            i <= na,
            na == a@.len(),
            na == b@.len(),
            forall|j: int| 0 <= j < i ==> a@[j] == b@[j],
        decreases na - i,
    {
        if a.get_char(i) != b.get_char(i) {
            return false;
        }
        i = i + 1;
    }
    proof {
        assert(a@ =~= b@);
    }
    true
}

/// ASCII upper-case letters folded to lower case, other characters unchanged,
/// as a code point.
pub open spec fn lower_u32(c: char) -> u32 {
    let u = c as u32;
    if 0x41 <= u && u <= 0x5A {
        (u + 0x20) as u32
    } else {
        u
    }
}

/// The code points of a sequence with ASCII letters folded to lower case.
pub open spec fn seq_lower(s: Seq<char>) -> Seq<u32> {
    s.map_values(|c: char| lower_u32(c))
}

/// ASCII-case-insensitive equality, as `str::eq_ignore_ascii_case`.
pub fn eq_ignore_ascii_case_str(a: &str, b: &str) -> (r: bool)
    ensures
        r == (seq_lower(a@) == seq_lower(b@)),
{
    let na: usize = a.unicode_len();
    let nb: usize = b.unicode_len();
    if na != nb {
        proof {
            assert(seq_lower(a@).len() != seq_lower(b@).len());
        }
        return false;
    }
    let mut i: usize = 0;
    while i < na
        invariant
            i <= na,
            na == a@.len(),
            na == b@.len(),
            forall|j: int| 0 <= j < i ==> seq_lower(a@)[j] == seq_lower(b@)[j],
        decreases na - i,
    {
        let ca: u32 = a.get_char(i) as u32;
        let cb: u32 = b.get_char(i) as u32;
        let la: u32 = if 0x41 <= ca && ca <= 0x5A {
            ca + 0x20
        } else {
            ca
        };
        let lb: u32 = if 0x41 <= cb && cb <= 0x5A {
            cb + 0x20
        } else {
            cb
        };
        if la != lb {
            proof {
                assert(seq_lower(a@)[i as int] != seq_lower(b@)[i as int]);
            }
            return false;
        }
        i = i + 1;
    }
    proof {
        assert(seq_lower(a@) =~= seq_lower(b@));
    }
    true
}

/// Lexicographic order on character sequences by code point, the order of
/// `str` comparison.
pub open spec fn lex_le(a: Seq<char>, b: Seq<char>) -> bool
    decreases a.len(),
{
    if a.len() == 0 {
        true
    } else if b.len() == 0 {
        false
    } else if (a[0] as u32) < (b[0] as u32) {
        true
    } else if (a[0] as u32) > (b[0] as u32) {
        false
    } else {
        lex_le(a.drop_first(), b.drop_first())
    }
}

/// The order is total.
pub proof fn lemma_lex_le_total(a: Seq<char>, b: Seq<char>)
    ensures
        lex_le(a, b) || lex_le(b, a),
    decreases a.len(),
{
    if a.len() > 0 && b.len() > 0 && (a[0] as u32) == (b[0] as u32) {
        lemma_lex_le_total(a.drop_first(), b.drop_first());
    }
}

/// The order is transitive.
pub proof fn lemma_lex_le_trans(a: Seq<char>, b: Seq<char>, c: Seq<char>)
    requires
        lex_le(a, b),
        lex_le(b, c),
    ensures
        lex_le(a, c),
    decreases a.len(),
{
    if a.len() > 0 && b.len() > 0 && c.len() > 0 {
        if (a[0] as u32) == (b[0] as u32) && (b[0] as u32) == (c[0] as u32) {
            lemma_lex_le_trans(a.drop_first(), b.drop_first(), c.drop_first());
        }
    }
}

/// With equal prefixes of length `i`, comparison is decided by the rest.
proof fn lemma_lex_le_common_prefix(a: Seq<char>, b: Seq<char>, i: int)
    requires
        0 <= i <= a.len(),
        i <= b.len(),
        forall|j: int| 0 <= j < i ==> a[j] == b[j],
    ensures
        lex_le(a, b) == lex_le(a.skip(i), b.skip(i)),
    decreases i,
{
    if i == 0 {
        assert(a.skip(0) =~= a);
        assert(b.skip(0) =~= b);
    } else {
        assert(a[0] == b[0]);
        lemma_lex_le_common_prefix(a.drop_first(), b.drop_first(), i - 1);
        assert(a.drop_first().skip(i - 1) =~= a.skip(i));
        assert(b.drop_first().skip(i - 1) =~= b.skip(i));
    }
}

/// Lexicographic comparison of two string slices, as `str` ordering
/// compares them.
pub fn str_lex_le(a: &str, b: &str) -> (r: bool)
    ensures
        r == lex_le(a@, b@),
{
    let na: usize = a.unicode_len();
    let nb: usize = b.unicode_len();
    let limit: usize = if na < nb {
        na
    } else {
        nb
    };
    let mut i: usize = 0;
    while i < limit
        invariant
            i <= limit,
            na == a@.len(),
            nb == b@.len(),
            limit == if na < nb {
                na
            } else {
                nb
            },
            forall|j: int| 0 <= j < i ==> a@[j] == b@[j],
        decreases limit - i,
    {
        let ca: u32 = a.get_char(i) as u32;
        let cb: u32 = b.get_char(i) as u32;
        if ca < cb {
            proof {
                lemma_lex_le_common_prefix(a@, b@, i as int);
            }
            return true;
        }
        if ca > cb {
            proof {
                lemma_lex_le_common_prefix(a@, b@, i as int);
            }
            return false;
        }
        proof {
            assert((a@[i as int] as u32) == (b@[i as int] as u32));
        }
        i = i + 1;
    }
    proof {
        lemma_lex_le_common_prefix(a@, b@, limit as int);
        if na <= nb {
            assert(a@.skip(limit as int).len() == 0);
        } else {
            assert(b@.skip(limit as int).len() == 0);
            assert(a@.skip(limit as int).len() > 0);
        }
    }
    na <= nb
}

/// The decimal digit for `d`, which must be below ten.
pub open spec fn dec_digit(d: nat) -> char {
    if d == 0 {
        '0'
    } else if d == 1 {
        '1'
    } else if d == 2 {
        '2'
    } else if d == 3 {
        '3'
    } else if d == 4 {
        '4'
    } else if d == 5 {
        '5'
    } else if d == 6 {
        '6'
    } else if d == 7 {
        '7'
    } else if d == 8 {
        '8'
    } else {
        '9'
    }
}

/// The usual decimal rendering of a natural number, no sign and no leading
/// zeros (a lone zero for zero).
pub open spec fn dec_str(n: nat) -> Seq<char>
    decreases n,
{
    if n < 10 {
        seq![dec_digit(n)]
    } else {
        dec_str(n / 10).push(dec_digit(n % 10))
    }
}

fn digit_str(d: usize) -> (r: &'static str)
    requires
        d < 10,
    ensures
        r@ =~= seq![dec_digit(d as nat)],
{
    proof {
        reveal_strlit("0");
        reveal_strlit("1");
        reveal_strlit("2");
        reveal_strlit("3");
        reveal_strlit("4");
        reveal_strlit("5");
        reveal_strlit("6");
        reveal_strlit("7");
        reveal_strlit("8");
        reveal_strlit("9");
    }
    if d == 0 {
        "0"
    } else if d == 1 {
        "1"
    } else if d == 2 {
        "2"
    } else if d == 3 {
        "3"
    } else if d == 4 {
        "4"
    } else if d == 5 {
        "5"
    } else if d == 6 {
        "6"
    } else if d == 7 {
        "7"
    } else if d == 8 {
        "8"
    } else {
        "9"
    }
}

/// Decimal rendering of `n`.
pub fn usize_to_string(n: usize) -> (r: String)
    ensures
        r@ == dec_str(n as nat),
    decreases n,
{
    if n < 10 {
        String::from_str(digit_str(n))
    } else {
        let mut r = usize_to_string(n / 10);
        r.append(digit_str(n % 10));
        proof {
            assert(r@ =~= dec_str(n as nat));
        }
        r
    }
}

} // verus!
