//! Verified text utilities: decimal rendering and parsing, character search,
//! substring tests, and ASCII lowercasing, all specified over `Seq<char>`.

use vstd::prelude::*;
use vstd::string::StrSliceExecFns;
use vstd::string::StringExecFns;

verus! {

// ---------------------------------------------------------------------------
// Decimal digits
// ---------------------------------------------------------------------------

/// The character for one decimal digit.
pub open spec fn dec_digit(d: int) -> char {
    if d == 0 { '0' }
    else if d == 1 { '1' }
    else if d == 2 { '2' }
    else if d == 3 { '3' }
    else if d == 4 { '4' }
    else if d == 5 { '5' }
    else if d == 6 { '6' }
    else if d == 7 { '7' }
    else if d == 8 { '8' }
    else { '9' }
}

/// The usual base-10 rendering of a natural number, no leading zeros.
pub open spec fn dec_rep(n: nat) -> Seq<char>
    decreases n,
{
    if n < 10 {
        seq![dec_digit(n as int)]
    } else {
        dec_rep(n / 10) + seq![dec_digit((n % 10) as int)]
    }
}

pub open spec fn is_dec_digit(c: char) -> bool {
    '0' <= c && c <= '9'
}

/// The value of one digit character; meaningful only when `is_dec_digit`.
pub open spec fn digit_val(c: char) -> int {
    if c == '0' { 0 }
    else if c == '1' { 1 }
    else if c == '2' { 2 }
    else if c == '3' { 3 }
    else if c == '4' { 4 }
    else if c == '5' { 5 }
    else if c == '6' { 6 }
    else if c == '7' { 7 }
    else if c == '8' { 8 }
    else { 9 }
}

pub open spec fn all_digits(s: Seq<char>) -> bool {
    forall|i: int| 0 <= i < s.len() ==> is_dec_digit(#[trigger] s[i])
}

/// The value of a digit string read in base 10.
pub open spec fn dec_val(s: Seq<char>) -> int
    decreases s.len(),
{
    if s.len() == 0 {
        0
    } else {
        dec_val(s.drop_last()) * 10 + digit_val(s.last())
    }
}

pub proof fn lemma_dec_rep_digits(n: nat)
    ensures
        all_digits(dec_rep(n)),
        dec_rep(n).len() >= 1,
    decreases n,
{
    if n < 10 {
    } else {
        lemma_dec_rep_digits(n / 10);
        assert forall|i: int| 0 <= i < dec_rep(n).len() implies is_dec_digit(#[trigger] dec_rep(n)[i]) by {
            if i < dec_rep(n / 10).len() {
                assert(dec_rep(n)[i] == dec_rep(n / 10)[i]);
            }
        }
    }
}

pub proof fn lemma_dec_rep_val(n: nat)
    ensures
        dec_val(dec_rep(n)) == n,
    decreases n,
{
    if n < 10 {
        assert(dec_rep(n) =~= seq![dec_digit(n as int)]);
        assert(dec_rep(n).last() == dec_digit(n as int));
        assert(dec_rep(n).drop_last() =~= Seq::<char>::empty());
        assert(dec_val(dec_rep(n).drop_last()) == 0);
        assert(digit_val(dec_digit(n as int)) == n);
    } else {
        lemma_dec_rep_val(n / 10);
        assert(dec_rep(n).drop_last() =~= dec_rep(n / 10));
        assert(dec_rep(n).last() == dec_digit((n % 10) as int));
        assert(digit_val(dec_digit((n % 10) as int)) == n % 10);
    }
}

/// The exec character for one digit.
pub fn digit_char_of(d: u8) -> (c: char)
    requires
        d < 10,
    ensures
        c == dec_digit(d as int),
{
    match d {
        0u8 => '0',
        1u8 => '1',
        2u8 => '2',
        3u8 => '3',
        4u8 => '4',
        5u8 => '5',
        6u8 => '6',
        7u8 => '7',
        8u8 => '8',
        _ => '9',
    }
}

/// A one-character string for one digit.
pub fn digit_str(d: u64) -> (s: &'static str)
    requires
        d < 10,
    ensures
        s@ == seq![dec_digit(d as int)],
{
    proof {
        reveal_strlit("0");
        reveal_strlit("1");
        reveal_strlit("2");
        reveal_strlit("3");
        reveal_strlit("4");
        reveal_strlit("5");
        reveal_strlit("6");
        reveal_strlit("7");
        reveal_strlit("8");
        reveal_strlit("9");
        assert("0"@ =~= seq!['0']);
        assert("1"@ =~= seq!['1']);
        assert("2"@ =~= seq!['2']);
        assert("3"@ =~= seq!['3']);
        assert("4"@ =~= seq!['4']);
        assert("5"@ =~= seq!['5']);
        assert("6"@ =~= seq!['6']);
        assert("7"@ =~= seq!['7']);
        assert("8"@ =~= seq!['8']);
        assert("9"@ =~= seq!['9']);
    }
    match d {
        0u64 => "0",
        1u64 => "1",
        2u64 => "2",
        3u64 => "3",
        4u64 => "4",
        5u64 => "5",
        6u64 => "6",
        7u64 => "7",
        8u64 => "8",
        _ => "9",
    }
}

/// Renders `n` in decimal.
pub fn u64_to_string(n: u64) -> (s: String)
    ensures
        s@ == dec_rep(n as nat),
    decreases n,
{
    if n < 10 {
        digit_str(n).to_owned()
    } else {
        let mut s = u64_to_string(n / 10);
        s.append(digit_str(n % 10));
        s
    }
}

/// Renders `n` in decimal.
pub fn u16_to_string(n: u16) -> (s: String)
    ensures
        s@ == dec_rep(n as nat),
{
    u64_to_string(n as u64)
}

/// Renders `n` in decimal.
pub fn u32_to_string(n: u32) -> (s: String)
    ensures
        s@ == dec_rep(n as nat),
{
    u64_to_string(n as u64)
}

// ---------------------------------------------------------------------------
// Character search
// ---------------------------------------------------------------------------

/// Index of the first occurrence of `c` at or after `lo`; `s.len()` if none.
pub open spec fn find_from(s: Seq<char>, c: char, lo: int) -> int
    decreases s.len() - lo,
{
    if lo < 0 {
        find_from(s, c, 0)
    } else if lo >= s.len() {
        s.len() as int
    } else if s[lo] == c {
        lo
    } else {
        find_from(s, c, lo + 1)
    }
}

/// Index of the last occurrence of `c` in `s[lo..hi]`; `-1` if none.
pub open spec fn rfind_in(s: Seq<char>, c: char, lo: int, hi: int) -> int
    decreases hi - lo,
{
    if hi <= lo || hi > s.len() || lo < 0 {
        -1
    } else if s[hi - 1] == c {
        hi - 1
    } else {
        rfind_in(s, c, lo, hi - 1)
    }
}

pub proof fn lemma_find_from_bounds(s: Seq<char>, c: char, lo: int)
    requires
        0 <= lo <= s.len(),
    ensures
        lo <= find_from(s, c, lo) <= s.len(),
        find_from(s, c, lo) < s.len() ==> s[find_from(s, c, lo)] == c,
        forall|m: int| lo <= m < find_from(s, c, lo) ==> s[m] != c,
    decreases s.len() - lo,
{
    if lo < s.len() && s[lo] != c {
        lemma_find_from_bounds(s, c, lo + 1);
    }
}

/// `find_from` returns `j` exactly when `j` is the first hit at or after `lo`.
pub proof fn lemma_find_from_eq(s: Seq<char>, c: char, lo: int, j: int)
    requires
        0 <= lo <= j <= s.len(),
        forall|m: int| lo <= m < j ==> s[m] != c,
        j == s.len() || s[j] == c,
    ensures
        find_from(s, c, lo) == j,
    decreases j - lo,
{
    if lo < j {
        lemma_find_from_eq(s, c, lo + 1, j);
    }
}

pub proof fn lemma_rfind_in_bounds(s: Seq<char>, c: char, lo: int, hi: int)
    requires
        0 <= lo <= hi <= s.len(),
    ensures
        rfind_in(s, c, lo, hi) == -1 || lo <= rfind_in(s, c, lo, hi) < hi,
        rfind_in(s, c, lo, hi) >= lo ==> s[rfind_in(s, c, lo, hi)] == c,
        forall|m: int|
            lo <= m < hi && m > rfind_in(s, c, lo, hi) ==> s[m] != c,
    decreases hi - lo,
{
    if hi > lo && s[hi - 1] != c {
        lemma_rfind_in_bounds(s, c, lo, hi - 1);
    }
}

/// `rfind_in` returns `j` exactly when `j` is the last hit in `[lo, hi)`.
pub proof fn lemma_rfind_in_eq(s: Seq<char>, c: char, lo: int, hi: int, j: int)
    requires
        0 <= lo <= j < hi <= s.len(),
        s[j] == c,
        forall|m: int| j < m < hi ==> s[m] != c,
    ensures
        rfind_in(s, c, lo, hi) == j,
    decreases hi - j,
{
    if j < hi - 1 {
        lemma_rfind_in_eq(s, c, lo, hi - 1, j);
    }
}

/// First occurrence of `c` in `s` at or after `lo`.
pub fn find_char_from(s: &str, c: char, lo: usize) -> (r: usize)
    requires
        lo <= s@.len(),
    ensures
        r == find_from(s@, c, lo as int),
{
    let n = s.unicode_len();
    let mut i = lo;
    while i < n
        invariant
            lo <= i <= n,
            n == s@.len(),
            find_from(s@, c, lo as int) == find_from(s@, c, i as int),
        decreases n - i,
    {
        if s.get_char(i) == c {
            return i;
        }
        i = i + 1;
    }
    n
}

/// Last occurrence of `c` in `s[lo..hi]`, or `hi` (as "none") if absent.
pub fn rfind_char_in(s: &str, c: char, lo: usize, hi: usize) -> (r: Option<usize>)
    requires
        lo <= hi <= s@.len(),
    ensures
        match r {
            Some(j) => j == rfind_in(s@, c, lo as int, hi as int),
            None => rfind_in(s@, c, lo as int, hi as int) == -1,
        },
{
    let mut i = hi;
    while i > lo
        invariant
            lo <= i <= hi <= s@.len(),
            rfind_in(s@, c, lo as int, hi as int) == rfind_in(s@, c, lo as int, i as int),
        decreases i,
    {
        if s.get_char(i - 1) == c {
            return Some(i - 1);
        }
        i = i - 1;
    }
    None
}

// ---------------------------------------------------------------------------
// Equality, prefixes, substrings
// ---------------------------------------------------------------------------

/// Character-wise equality of two string slices.
pub fn str_eq(a: &str, b: &str) -> (r: bool)
    ensures
        r == (a@ == b@),
{
    let na = a.unicode_len();
    let nb = b.unicode_len();
    if na != nb {
        assert(a@ != b@);
        return false;
    }
    let mut i: usize = 0;
    while i < na
        invariant
            i <= na,
            na == a@.len(),
            na == b@.len(),
            forall|m: int| 0 <= m < i ==> a@[m] == b@[m],
        decreases na - i,
    {
        if a.get_char(i) != b.get_char(i) {
            return false;
        }
        i = i + 1;
    }
    proof {
        assert(a@ =~= b@);
    }
    true
}

pub open spec fn starts_with(s: Seq<char>, p: Seq<char>) -> bool {
    p.len() <= s.len() && s.subrange(0, p.len() as int) == p
}

pub open spec fn ends_with(s: Seq<char>, p: Seq<char>) -> bool {
    p.len() <= s.len() && s.subrange(s.len() - p.len(), s.len() as int) == p
}

/// Whether `s` begins with `p`.
pub fn str_starts_with(s: &str, p: &str) -> (r: bool)
    ensures
        r == starts_with(s@, p@),
{
    let ns = s.unicode_len();
    let np = p.unicode_len();
    if np > ns {
        return false;
    }
    let mut i: usize = 0;
    while i < np
        invariant
            i <= np <= ns,
            ns == s@.len(),
            np == p@.len(),
            forall|m: int| 0 <= m < i ==> s@[m] == p@[m],
        decreases np - i,
    {
        if s.get_char(i) != p.get_char(i) {
            assert(s@.subrange(0, np as int)[i as int] != p@[i as int]);
            return false;
        }
        i = i + 1;
    }
    proof {
        assert(s@.subrange(0, np as int) =~= p@);
    }
    true
}

/// Whether `s` ends with `p`.
pub fn str_ends_with(s: &str, p: &str) -> (r: bool)
    ensures
        r == ends_with(s@, p@),
{
    let ns = s.unicode_len();
    let np = p.unicode_len();
    if np > ns {
        return false;
    }
    let off = ns - np;
    let mut i: usize = 0;
    while i < np
        invariant
            i <= np <= ns,
            off == ns - np,
            ns == s@.len(),
            np == p@.len(),
            forall|m: int| 0 <= m < i ==> s@[off + m] == p@[m],
        decreases np - i,
    {
        if s.get_char(off + i) != p.get_char(i) {
            assert(s@.subrange(off as int, ns as int)[i as int] != p@[i as int]);
            return false;
        }
        i = i + 1;
    }
    proof {
        assert(s@.subrange(off as int, ns as int) =~= p@);
    }
    true
}

/// `pat` occurs somewhere inside `s`.
pub open spec fn has_substr(s: Seq<char>, pat: Seq<char>) -> bool {
    exists|i: int|
        0 <= i && i + pat.len() <= s.len() && #[trigger] s.subrange(i, i + pat.len()) == pat
}

/// Substring search by scanning every offset.
pub fn str_contains(s: &str, pat: &str) -> (r: bool)
    ensures
        r == has_substr(s@, pat@),
{
    let ns = s.unicode_len();
    let np = pat.unicode_len();
    if np > ns {
        assert(!has_substr(s@, pat@));
        return false;
    }
    if np == 0 {
        proof {
            assert(s@.subrange(0, 0 + pat@.len() as int) =~= pat@);
        }
        return true;
    }
    let last = ns - np;
    let mut i: usize = 0;
    while i <= last
        invariant
            ns == s@.len(),
            np == pat@.len(),
            0 < np <= ns,
            last == ns - np,
            i <= last + 1,
            forall|m: int|
                0 <= m < i ==> #[trigger] s@.subrange(m, m + np as int) != pat@,
        decreases last + 1 - i,
    {
        if match_at(s, pat, i) {
            return true;
        }
        i = i + 1;
    }
    proof {
        assert forall|m: int| 0 <= m && m + pat@.len() <= s@.len() implies #[trigger] s@.subrange(
            m,
            m + pat@.len(),
        ) != pat@ by {
            assert(s@.subrange(m, m + np as int) != pat@);
        }
    }
    false
}

/// Whether `pat` matches `s` at offset `i`.
fn match_at(s: &str, pat: &str, i: usize) -> (r: bool)
    requires
        i + pat@.len() <= s@.len(),
        s@.len() <= usize::MAX,
    ensures
        r == (s@.subrange(i as int, i + pat@.len()) == pat@),
{
    let np = pat.unicode_len();
    let mut k: usize = 0;
    while k < np
        invariant
            k <= np,
            np == pat@.len(),
            i + np <= s@.len(),
            s@.len() <= usize::MAX,
            forall|m: int| 0 <= m < k ==> s@[i + m] == pat@[m],
        decreases np - k,
    {
        if s.get_char(i + k) != pat.get_char(k) {
            assert(s@.subrange(i as int, i + pat@.len())[k as int] != pat@[k as int]);
            return false;
        }
        k = k + 1;
    }
    proof {
        assert(s@.subrange(i as int, i + pat@.len()) =~= pat@);
    }
    true
}

// ---------------------------------------------------------------------------
// ASCII lowercasing
// ---------------------------------------------------------------------------

/// Lowercases the 26 ASCII capitals and leaves every other character alone.
pub open spec fn lower_char(c: char) -> char {
    if c == 'A' { 'a' }
    else if c == 'B' { 'b' }
    else if c == 'C' { 'c' }
    else if c == 'D' { 'd' }
    else if c == 'E' { 'e' }
    else if c == 'F' { 'f' }
    else if c == 'G' { 'g' }
    else if c == 'H' { 'h' }
    else if c == 'I' { 'i' }
    else if c == 'J' { 'j' }
    else if c == 'K' { 'k' }
    else if c == 'L' { 'l' }
    else if c == 'M' { 'm' }
    else if c == 'N' { 'n' }
    else if c == 'O' { 'o' }
    else if c == 'P' { 'p' }
    else if c == 'Q' { 'q' }
    else if c == 'R' { 'r' }
    else if c == 'S' { 's' }
    else if c == 'T' { 't' }
    else if c == 'U' { 'u' }
    else if c == 'V' { 'v' }
    else if c == 'W' { 'w' }
    else if c == 'X' { 'x' }
    else if c == 'Y' { 'y' }
    else if c == 'Z' { 'z' }
    else { c }
}

pub open spec fn lower(s: Seq<char>) -> Seq<char> {
    s.map_values(|c: char| lower_char(c))
}

/// The exec twin of `lower_char`.
pub fn lower_char_exec(c: char) -> (r: char)
    ensures
        r == lower_char(c),
{
    match c {
        'A' => 'a',
        'B' => 'b',
        'C' => 'c',
        'D' => 'd',
        'E' => 'e',
        'F' => 'f',
        'G' => 'g',
        'H' => 'h',
        'I' => 'i',
        'J' => 'j',
        'K' => 'k',
        'L' => 'l',
        'M' => 'm',
        'N' => 'n',
        'O' => 'o',
        'P' => 'p',
        'Q' => 'q',
        'R' => 'r',
        'S' => 's',
        'T' => 't',
        'U' => 'u',
        'V' => 'v',
        'W' => 'w',
        'X' => 'x',
        'Y' => 'y',
        'Z' => 'z',
        _ => c,
    }
}

// ---------------------------------------------------------------------------
// Whitespace trimming
// ---------------------------------------------------------------------------

/// The ASCII whitespace that tool output carries.
pub open spec fn is_wsp(c: char) -> bool {
    c == ' ' || c == '\n' || c == '\r' || c == '\t'
}

/// `s` without leading whitespace.
pub open spec fn trim_ws_front(s: Seq<char>) -> Seq<char>
    decreases s.len(),
{
    if s.len() > 0 && is_wsp(s[0]) {
        trim_ws_front(s.subrange(1, s.len() as int))
    } else {
        s
    }
}

/// `s` without trailing whitespace.
pub open spec fn trim_ws_back(s: Seq<char>) -> Seq<char>
    decreases s.len(),
{
    if s.len() > 0 && is_wsp(s.last()) {
        trim_ws_back(s.drop_last())
    } else {
        s
    }
}

/// `s` without leading and trailing whitespace.
pub open spec fn trim_ws(s: Seq<char>) -> Seq<char> {
    trim_ws_back(trim_ws_front(s))
}

proof fn lemma_trim_ws_front_range(s: Seq<char>, lo: int, hi: int, j: int)
    requires
        0 <= lo <= j <= hi <= s.len(),
        forall|m: int| lo <= m < j ==> is_wsp(s[m]),
        j == hi || !is_wsp(s[j]),
    ensures
        trim_ws_front(s.subrange(lo, hi)) == s.subrange(j, hi),
    decreases j - lo,
{
    if j == lo {
        if lo < hi {
            assert(s.subrange(lo, hi)[0] == s[lo]);
        }
    } else {
        assert(s.subrange(lo, hi)[0] == s[lo]);
        assert(s.subrange(lo, hi).subrange(1, s.subrange(lo, hi).len() as int) =~= s.subrange(
            lo + 1,
            hi,
        ));
        lemma_trim_ws_front_range(s, lo + 1, hi, j);
    }
}

proof fn lemma_trim_ws_back_range(s: Seq<char>, lo: int, hi: int, j: int)
    requires
        0 <= lo <= j <= hi <= s.len(),
        forall|m: int| j <= m < hi ==> is_wsp(s[m]),
        j == lo || !is_wsp(s[j - 1]),
    ensures
        trim_ws_back(s.subrange(lo, hi)) == s.subrange(lo, j),
    decreases hi - j,
{
    if j == hi {
        if lo < hi {
            assert(s.subrange(lo, hi).last() == s[hi - 1]);
        }
    } else {
        assert(s.subrange(lo, hi).last() == s[hi - 1]);
        assert(s.subrange(lo, hi).drop_last() =~= s.subrange(lo, hi - 1));
        lemma_trim_ws_back_range(s, lo, hi - 1, j);
    }
}

/// The exec twin of `is_wsp`.
pub fn is_ws_char(c: char) -> (r: bool)
    ensures
        r == is_wsp(c),
{
    c == ' ' || c == '\n' || c == '\r' || c == '\t'
}

/// Strips leading and trailing ASCII whitespace.
pub fn trim_ascii_ws(s: &str) -> (r: String)
    ensures
        r@ == trim_ws(s@),
{
    let n = s.unicode_len();
    let mut a: usize = 0;
    while a < n && is_ws_char(s.get_char(a))
        invariant
            a <= n,
            n == s@.len(),
            forall|m: int| 0 <= m < a ==> is_wsp(s@[m]),
        decreases n - a,
    {
        a = a + 1;
    }
    let mut b = n;
    while b > a && is_ws_char(s.get_char(b - 1))
        invariant
            a <= b <= n,
            n == s@.len(),
            forall|m: int| b <= m < n ==> is_wsp(s@[m]),
        decreases b,
    {
        b = b - 1;
    }
    proof {
        assert(s@.subrange(0, n as int) =~= s@);
        lemma_trim_ws_front_range(s@, 0, n as int, a as int);
        lemma_trim_ws_back_range(s@, a as int, n as int, b as int);
    }
    s.substring_char(a, b).to_owned()
}

/// A one-character string for one lowercased capital.
fn lower_str_of(c: char) -> (r: &'static str)
    requires
        'A' <= c && c <= 'Z',
    ensures
        r@ == seq![lower_char(c)],
{
    proof {
        reveal_strlit("a");
        reveal_strlit("b");
        reveal_strlit("c");
        reveal_strlit("d");
        reveal_strlit("e");
        reveal_strlit("f");
        reveal_strlit("g");
        reveal_strlit("h");
        reveal_strlit("i");
        reveal_strlit("j");
        reveal_strlit("k");
        reveal_strlit("l");
        reveal_strlit("m");
        reveal_strlit("n");
        reveal_strlit("o");
        reveal_strlit("p");
        reveal_strlit("q");
        reveal_strlit("r");
        reveal_strlit("s");
        reveal_strlit("t");
        reveal_strlit("u");
        reveal_strlit("v");
        reveal_strlit("w");
        reveal_strlit("x");
        reveal_strlit("y");
        reveal_strlit("z");
    }
    match c {
        'A' => "a",
        'B' => "b",
        'C' => "c",
        'D' => "d",
        'E' => "e",
        'F' => "f",
        'G' => "g",
        'H' => "h",
        'I' => "i",
        'J' => "j",
        'K' => "k",
        'L' => "l",
        'M' => "m",
        'N' => "n",
        'O' => "o",
        'P' => "p",
        'Q' => "q",
        'R' => "r",
        'S' => "s",
        'T' => "t",
        'U' => "u",
        'V' => "v",
        'W' => "w",
        'X' => "x",
        'Y' => "y",
        _ => "z",
    }
}

/// The ASCII-lowercased copy of `s`.
pub fn lower_string(s: &str) -> (r: String)
    ensures
        r@ == lower(s@),
{
    let n = s.unicode_len();
    let mut out = String::new();
    let mut i: usize = 0;
    while i < n
        invariant
            i <= n,
            n == s@.len(),
            out@ =~= lower(s@).subrange(0, i as int),
        decreases n - i,
    {
        let c = s.get_char(i);
        if c >= 'A' && c <= 'Z' {
            out.append(lower_str_of(c));
        } else {
            let piece = s.substring_char(i, i + 1);
            assert(piece@ =~= seq![s@[i as int]]);
            out.append(piece);
        }
        proof {
            assert(lower(s@)[i as int] == lower_char(s@[i as int]));
            assert(out@ =~= lower(s@).subrange(0, i + 1));
        }
        i = i + 1;
    }
    proof {
        assert(out@ =~= lower(s@));
    }
    out
}

// ---------------------------------------------------------------------------
// Decimal parsing
// ---------------------------------------------------------------------------

/// Longer digit prefixes never shrink in value.
pub proof fn lemma_dec_val_extend(s: Seq<char>, j: int)
    requires
        0 <= j <= s.len(),
        all_digits(s),
    ensures
        dec_val(s.subrange(0, j)) <= dec_val(s),
    decreases s.len() - j,
{
    lemma_dec_val_nonneg(s.subrange(0, j));
    if j < s.len() {
        lemma_dec_val_extend(s, j + 1);
        assert(s.subrange(0, j + 1).drop_last() =~= s.subrange(0, j));
        lemma_dec_val_nonneg(s.subrange(0, j));
    } else {
        assert(s.subrange(0, j) =~= s);
    }
}

pub proof fn lemma_dec_val_nonneg(s: Seq<char>)
    ensures
        dec_val(s) >= 0,
    decreases s.len(),
{
    if s.len() > 0 {
        lemma_dec_val_nonneg(s.drop_last());
    }
}

/// Parses `s[lo..hi]` as a decimal port number.
///
/// Returns the value exactly when the range is a non-empty digit string whose
/// value fits a `u16`.
pub fn parse_port_digits(s: &str, lo: usize, hi: usize) -> (r: Option<u16>)
    requires
        lo <= hi <= s@.len(),
    ensures
        ({
            let part = s@.subrange(lo as int, hi as int);
            match r {
                Some(p) => part.len() > 0 && all_digits(part) && dec_val(part) == p,
                None => !(part.len() > 0 && all_digits(part) && dec_val(part) <= 65535),
            }
        }),
{
    let ghost part = s@.subrange(lo as int, hi as int);
    if lo == hi {
        return None;
    }
    let mut acc: u32 = 0;
    let mut i = lo;
    while i < hi
        invariant
            lo <= i <= hi <= s@.len(),
            part == s@.subrange(lo as int, hi as int),
            all_digits(part.subrange(0, i - lo)),
            acc <= 65535,
            acc == dec_val(part.subrange(0, i - lo)),
        decreases hi - i,
    {
        let c = s.get_char(i);
        if !(c >= '0' && c <= '9') {
            assert(part[i - lo] == c);
            assert(!is_dec_digit(part[i - lo]));
            return None;
        }
        let d: u32 = digit_value(c);
        proof {
            assert(part.subrange(0, i + 1 - lo).drop_last() =~= part.subrange(0, i - lo));
            assert(part.subrange(0, i + 1 - lo).last() == c);
        }
        acc = acc * 10 + d;
        if acc > 65535 {
            proof {
                lemma_all_digits_or_not(part, i + 1 - lo);
            }
            return None;
        }
        i = i + 1;
    }
    proof {
        assert(part.subrange(0, hi - lo) =~= part);
    }
    Some(acc as u16)
}

/// If a prefix of `s` already exceeds a bound, either some later character is
/// not a digit, or the whole value exceeds it too.
proof fn lemma_all_digits_or_not(s: Seq<char>, j: int)
    requires
        0 <= j <= s.len(),
        dec_val(s.subrange(0, j)) > 65535,
    ensures
        !(all_digits(s) && dec_val(s) <= 65535),
{
    if all_digits(s) {
        lemma_dec_val_extend(s, j);
    }
}

/// The numeric value of one digit character.
pub fn digit_value(c: char) -> (d: u32)
    requires
        is_dec_digit(c),
    ensures
        d == digit_val(c),
        d <= 9,
{
    match c {
        '0' => 0,
        '1' => 1,
        '2' => 2,
        '3' => 3,
        '4' => 4,
        '5' => 5,
        '6' => 6,
        '7' => 7,
        '8' => 8,
        _ => 9,
    }
}

/// Parses `s[lo..hi]` as a decimal counter.
///
/// Returns the value exactly when the range is a non-empty digit string whose
/// value fits a `u64`.
pub fn parse_u64_digits(s: &str, lo: usize, hi: usize) -> (r: Option<u64>)
    requires
        lo <= hi <= s@.len(),
    ensures
        ({
            let part = s@.subrange(lo as int, hi as int);
            match r {
                Some(v) => part.len() > 0 && all_digits(part) && dec_val(part) == v,
                None => !(part.len() > 0 && all_digits(part) && dec_val(part) <= u64::MAX),
            }
        }),
{
    let ghost part = s@.subrange(lo as int, hi as int);
    if lo == hi {
        return None;
    }
    let mut acc: u64 = 0;
    let mut i = lo;
    while i < hi
        invariant
            lo <= i <= hi <= s@.len(),
            part == s@.subrange(lo as int, hi as int),
            all_digits(part.subrange(0, i - lo)),
            acc == dec_val(part.subrange(0, i - lo)),
        decreases hi - i,
    {
        let c = s.get_char(i);
        if !(c >= '0' && c <= '9') {
            assert(part[i - lo] == c);
            assert(!is_dec_digit(part[i - lo]));
            return None;
        }
        let d: u64 = digit_value(c) as u64;
        proof {
            assert(part.subrange(0, i + 1 - lo).drop_last() =~= part.subrange(0, i - lo));
            assert(part.subrange(0, i + 1 - lo).last() == c);
            lemma_dec_val_nonneg(part.subrange(0, i - lo));
        }
        if acc > (u64::MAX - d) / 10 {
            proof {
                assert(10 * ((u64::MAX - d) / 10) + (u64::MAX - d) % 10 == u64::MAX - d);
                assert(acc * 10 >= ((u64::MAX - d) / 10 + 1) * 10) by (nonlinear_arith)
                    requires
                        acc >= (u64::MAX - d) / 10 + 1,
                ;
                assert(dec_val(part.subrange(0, i + 1 - lo)) > u64::MAX);
                lemma_dec_val_extend_general(part, i + 1 - lo);
            }
            return None;
        }
        acc = acc * 10 + d;
        i = i + 1;
    }
    proof {
        assert(part.subrange(0, hi - lo) =~= part);
    }
    Some(acc)
}

/// Once a digit prefix exceeds a value, the whole digit string does too.
proof fn lemma_dec_val_extend_general(s: Seq<char>, j: int)
    requires
        0 <= j <= s.len(),
        dec_val(s.subrange(0, j)) > u64::MAX,
    ensures
        !(all_digits(s) && dec_val(s) <= u64::MAX),
{
    if all_digits(s) {
        lemma_dec_val_prefix_le(s, j);
    }
}

/// For digit strings, prefixes never exceed the whole value.
pub proof fn lemma_dec_val_prefix_le(s: Seq<char>, j: int)
    requires
        0 <= j <= s.len(),
        all_digits(s),
    ensures
        dec_val(s.subrange(0, j)) <= dec_val(s),
    decreases s.len() - j,
{
    lemma_dec_val_nonneg(s.subrange(0, j));
    if j < s.len() {
        lemma_dec_val_prefix_le(s, j + 1);
        assert(s.subrange(0, j + 1).drop_last() =~= s.subrange(0, j));
    } else {
        assert(s.subrange(0, j) =~= s);
    }
}

} // verus!
