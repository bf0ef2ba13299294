//! Character-level string helpers with exact specifications: equality,
//! substring search, splitting at a separator and whitespace trimming.

use vstd::prelude::*;

verus! {

/// `pat` occurs in `s` starting at index `i`.
pub open spec fn occurs_at(s: Seq<char>, pat: Seq<char>, i: int) -> bool {
    0 <= i && i + pat.len() <= s.len() && s.subrange(i, i + pat.len()) == pat
}

/// `pat` is a substring of `s` (the empty pattern is in every string).
pub open spec fn contains_seq(s: Seq<char>, pat: Seq<char>) -> bool {
    exists|i: int| occurs_at(s, pat, i)
}

/// Index of the first occurrence of `pat` in `s` at or after `i`, or `-1`.
pub open spec fn first_index_from(s: Seq<char>, pat: Seq<char>, i: int) -> int
    decreases s.len() - i,
{
    if i < 0 || i + pat.len() > s.len() {
        -1
    } else if occurs_at(s, pat, i) {
        i
    } else if i >= s.len() {
        -1
    } else {
        first_index_from(s, pat, i + 1)
    }
}

/// Index of the first occurrence of `pat` in `s`, or `-1`.
pub open spec fn first_index(s: Seq<char>, pat: Seq<char>) -> int {
    first_index_from(s, pat, 0)
}

/// Index of the last occurrence of `pat` starting strictly below `end`, or `-1`.
pub open spec fn last_index_below(s: Seq<char>, pat: Seq<char>, end: int) -> int
    decreases end,
{
    if end <= 0 {
        -1
    } else if occurs_at(s, pat, end - 1) {
        end - 1
    } else {
        last_index_below(s, pat, end - 1)
    }
}

/// Index of the last occurrence of `pat` in `s`, or `-1`.
pub open spec fn last_index(s: Seq<char>, pat: Seq<char>) -> int {
    last_index_below(s, pat, s.len() + 1 as int)
}

/// The first piece of `s` split at `sep`: everything before the first
/// occurrence of `sep`, or all of `s` when `sep` does not occur.
pub open spec fn before_first(s: Seq<char>, sep: Seq<char>) -> Seq<char> {
    let i = first_index(s, sep);
    if i < 0 { s } else { s.take(i) }
}

/// The last piece of `s` split at `sep`: everything after the last
/// occurrence of `sep`, or all of `s` when `sep` does not occur.
pub open spec fn after_last(s: Seq<char>, sep: Seq<char>) -> Seq<char> {
    let i = last_index(s, sep);
    if i < 0 { s } else { s.skip(i + sep.len()) }
}

/// Unicode `White_Space` characters, the set that `char::is_whitespace` tests.
pub open spec fn is_ws(c: char) -> bool {
    ||| c == ' '
    ||| ('\t' <= c && c <= '\r')
    ||| c == '\u{85}'
    ||| c == '\u{a0}'
    ||| c == '\u{1680}'
    ||| ('\u{2000}' <= c && c <= '\u{200a}')
    ||| c == '\u{2028}'
    ||| c == '\u{2029}'
    ||| c == '\u{202f}'
    ||| c == '\u{205f}'
    ||| c == '\u{3000}'
}

/// `s` without its leading whitespace.
pub open spec fn trim_start(s: Seq<char>) -> Seq<char>
    decreases s.len(),
{
    if s.len() > 0 && is_ws(s[0]) {
        trim_start(s.drop_first())
    } else {
        s
    }
}

/// `s` without its trailing whitespace.
pub open spec fn trim_end(s: Seq<char>) -> Seq<char>
    decreases s.len(),
{
    if s.len() > 0 && is_ws(s.last()) {
        trim_end(s.drop_last())
    } else {
        s
    }
}

/// `s` without leading and trailing whitespace, as `str::trim` gives it.
pub open spec fn trim(s: Seq<char>) -> Seq<char> {
    trim_end(trim_start(s))
}

/// Whether `c` is a Unicode whitespace character.
pub fn is_whitespace(c: char) -> (b: bool)
    ensures
        b == is_ws(c),
{
    c == ' ' || ('\t' <= c && c <= '\r') || c == '\u{85}' || c == '\u{a0}' || c == '\u{1680}'
        || ('\u{2000}' <= c && c <= '\u{200a}') || c == '\u{2028}' || c == '\u{2029}'
        || c == '\u{202f}' || c == '\u{205f}' || c == '\u{3000}'
}

/// Character-wise equality of two strings.
pub fn str_eq(a: &str, b: &str) -> (r: bool)
    ensures
        r == (a@ == b@),
{
    let n = a.unicode_len();
    let m = b.unicode_len();
    if n != m {
        return false;
    }
    let mut i: usize = 0;
    while i < n
        invariant
            n == a@.len(),
            m == b@.len(),
            n == m,
            i <= n,
            forall|j: int| 0 <= j < i ==> a@[j] == b@[j],
        decreases n - i,
    {
        if a.get_char(i) != b.get_char(i) {
            return false;
        }
        i = i + 1;
    }
    assert(a@ =~= b@);
    true
}

/// Whether `pat` occurs in `s` at character index `i`.
fn occurs_at_exec(s: &str, pat: &str, i: usize) -> (r: bool)
    requires
        i + pat@.len() <= s@.len() <= usize::MAX,
    ensures
        r == occurs_at(s@, pat@, i as int),
{
    let m = pat.unicode_len();
    let mut k: usize = 0;
    while k < m
        invariant
            m == pat@.len(),
            i + m <= s@.len() <= usize::MAX,
            k <= m,
            forall|j: int| 0 <= j < k ==> s@[i + j] == pat@[j],
        decreases m - k,
    {
        if s.get_char(i + k) != pat.get_char(k) {
            assert(s@.subrange(i as int, i + m)[k as int] != pat@[k as int]);
            return false;
        }
        k = k + 1;
    }
    assert(s@.subrange(i as int, i + m) =~= pat@);
    true
}

proof fn lemma_first_index_from_skip(s: Seq<char>, pat: Seq<char>, i: int)
    requires
        0 <= i,
        i + pat.len() <= s.len(),
        !occurs_at(s, pat, i),
    ensures
        first_index_from(s, pat, i) == first_index_from(s, pat, i + 1),
{
}

/// Character index of the first occurrence of `pat` in `s`, if any.
pub fn find_first(s: &str, pat: &str) -> (r: Option<usize>)
    ensures
        match r {
            Some(i) => i as int == first_index(s@, pat@),
            None => first_index(s@, pat@) == -1,
        },
{
    let n = s.unicode_len();
    let m = pat.unicode_len();
    if m > n {
        return None;
    }
    if m == 0 {
        assert(s@.subrange(0, 0) =~= pat@);
        return Some(0);
    }
    let mut i: usize = 0;
    while i <= n - m
        invariant
            n == s@.len(),
            m == pat@.len(),
            1 <= m <= n,
            i <= n - m + 1,
            first_index(s@, pat@) == first_index_from(s@, pat@, i as int),
        decreases n - i,
    {
        if occurs_at_exec(s, pat, i) {
            return Some(i);
        }
        proof {
            lemma_first_index_from_skip(s@, pat@, i as int);
        }
        i = i + 1;
    }
    None
}

/// Character index of the last occurrence of `pat` in `s`, if any.
pub fn find_last(s: &str, pat: &str) -> (r: Option<usize>)
    ensures
        match r {
            Some(i) => i as int == last_index(s@, pat@),
            None => last_index(s@, pat@) == -1,
        },
{
    let n = s.unicode_len();
    let m = pat.unicode_len();
    if m > n {
        proof {
            lemma_last_index_none(s@, pat@, s@.len() + 1 as int);
        }
        return None;
    }
    if m == 0 {
        assert(s@.subrange(n as int, n as int) =~= pat@);
        return Some(n);
    }
    let mut end: usize = n - m + 1;
    proof {
        lemma_last_index_beyond(s@, pat@, s@.len() + 1 as int, end as int);
    }
    while end > 0
        invariant
            n == s@.len(),
            m == pat@.len(),
            m <= n,
            end <= n - m + 1,
            last_index(s@, pat@) == last_index_below(s@, pat@, end as int),
        decreases end,
    {
        if occurs_at_exec(s, pat, end - 1) {
            return Some(end - 1);
        }
        end = end - 1;
    }
    None
}

proof fn lemma_last_index_none(s: Seq<char>, pat: Seq<char>, end: int)
    requires
        pat.len() > s.len(),
    ensures
        last_index_below(s, pat, end) == -1,
    decreases end,
{
    if end > 0 {
        lemma_last_index_none(s, pat, end - 1);
    }
}

proof fn lemma_last_index_beyond(s: Seq<char>, pat: Seq<char>, end: int, lo: int)
    requires
        0 <= lo <= end,
        lo + pat.len() >= s.len() + 1,
    ensures
        last_index_below(s, pat, end) == last_index_below(s, pat, lo),
    decreases end - lo,
{
    if end > lo {
        lemma_last_index_beyond(s, pat, end - 1, lo);
    }
}

/// Whether `pat` occurs anywhere in `s`, as `str::contains` answers.
pub fn contains(s: &str, pat: &str) -> (r: bool)
    ensures
        r == contains_seq(s@, pat@),
{
    let found = find_first(s, pat);
    proof {
        lemma_first_index_found(s@, pat@, 0);
    }
    found.is_some()
}

proof fn lemma_first_index_found(s: Seq<char>, pat: Seq<char>, i: int)
    requires
        0 <= i,
        forall|j: int| 0 <= j < i ==> !occurs_at(s, pat, j),
    ensures
        first_index_from(s, pat, i) == -1 <==> !contains_seq(s, pat),
        first_index_from(s, pat, i) != -1 ==> occurs_at(s, pat, first_index_from(s, pat, i)),
    decreases s.len() - i,
{
    if i + pat.len() > s.len() {
        assert forall|j: int| !occurs_at(s, pat, j) by {
            if j >= i {
                assert(j + pat.len() > s.len());
            }
        }
    } else if occurs_at(s, pat, i) {
    } else {
        assert(i < s.len()) by {
            if i == s.len() {
                assert(s.subrange(i, i + pat.len()) =~= pat);
            }
        }
        lemma_first_index_found(s, pat, i + 1);
    }
}

/// The text before the first occurrence of `sep`, or all of `s`.
pub fn split_first_piece(s: &str, sep: &str) -> (r: String)
    ensures
        r@ == before_first(s@, sep@),
{
    match find_first(s, sep) {
        Some(i) => {
            proof {
                lemma_first_index_found(s@, sep@, 0);
            }
            String::from_str(s.substring_char(0, i))
        },
        None => String::from_str(s),
    }
}

proof fn lemma_last_index_found(s: Seq<char>, pat: Seq<char>, end: int)
    ensures
        last_index_below(s, pat, end) != -1 ==> occurs_at(s, pat, last_index_below(s, pat, end)),
    decreases end,
{
    if end > 0 && !occurs_at(s, pat, end - 1) {
        lemma_last_index_found(s, pat, end - 1);
    }
}

/// The text after the last occurrence of `sep`, or all of `s`.
pub fn split_last_piece(s: &str, sep: &str) -> (r: String)
    ensures
        r@ == after_last(s@, sep@),
{
    match find_last(s, sep) {
        Some(i) => {
            proof {
                lemma_last_index_found(s@, sep@, s@.len() + 1 as int);
            }
            let n = s.unicode_len();
            let m = sep.unicode_len();
            String::from_str(s.substring_char(i + m, n))
        },
        None => String::from_str(s),
    }
}

proof fn lemma_trim_start_skip(s: Seq<char>, k: int)
    requires
        0 <= k <= s.len(),
        forall|j: int| 0 <= j < k ==> is_ws(s[j]),
    ensures
        trim_start(s) == trim_start(s.skip(k)),
    decreases k,
{
    if k > 0 {
        assert(s.drop_first().skip(k - 1) =~= s.skip(k));
        lemma_trim_start_skip(s.drop_first(), k - 1);
    } else {
        assert(s.skip(0) =~= s);
    }
}

proof fn lemma_trim_end_take(s: Seq<char>, k: int)
    requires
        0 <= k <= s.len(),
        forall|j: int| k <= j < s.len() ==> is_ws(s[j]),
    ensures
        trim_end(s) == trim_end(s.take(k)),
    decreases s.len() - k,
{
    if k < s.len() {
        assert(s.drop_last().take(k) =~= s.take(k));
        lemma_trim_end_take(s.drop_last(), k);
    } else {
        assert(s.take(k) =~= s);
    }
}

/// `s` without leading and trailing whitespace.
pub fn trim_str(s: &str) -> (r: String)
    ensures
        r@ == trim(s@),
{
    let n = s.unicode_len();
    let mut lo: usize = 0;
    while lo < n && is_whitespace(s.get_char(lo))
        invariant
            n == s@.len(),
            lo <= n,
            forall|j: int| 0 <= j < lo ==> is_ws(s@[j]),
        decreases n - lo,
    {
        lo = lo + 1;
    }
    proof {
        lemma_trim_start_skip(s@, lo as int);
    }
    let ghost rest = s@.skip(lo as int);
    assert(lo == n || !is_ws(rest[0]));
    assert(trim_start(s@) == rest);
    let mut hi: usize = n;
    while hi > lo && is_whitespace(s.get_char(hi - 1))
        invariant
            n == s@.len(),
            lo <= hi <= n,
            forall|j: int| hi <= j < n ==> is_ws(s@[j]),
        decreases hi,
    {
        hi = hi - 1;
    }
    proof {
        lemma_trim_end_take(rest, hi - lo);
        assert(rest.take(hi - lo) =~= s@.subrange(lo as int, hi as int));
    }
    String::from_str(s.substring_char(lo, hi))
}

} // verus!
