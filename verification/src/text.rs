//! Character-level string operations with exact specifications.

use vstd::prelude::*;

verus! {

/// The characters with the Unicode `White_Space` property, which is what
/// `char::is_whitespace` tests.
pub open spec fn is_white_space(c: char) -> bool {
    ||| ('\u{9}' <= c && c <= '\u{d}')
    ||| c == ' '
    ||| c == '\u{85}'
    ||| c == '\u{a0}'
    ||| c == '\u{1680}'
    ||| ('\u{2000}' <= c && c <= '\u{200a}')
    ||| c == '\u{2028}'
    ||| c == '\u{2029}'
    ||| c == '\u{202f}'
    ||| c == '\u{205f}'
    ||| c == '\u{3000}'
}

/// `s` with its leading white space removed.
pub open spec fn trim_start_spec(s: Seq<char>) -> Seq<char>
    decreases s.len(),
{
    if s.len() > 0 && is_white_space(s[0]) {
        trim_start_spec(s.drop_first())
    } else {
        s
    }
}

/// `s` with its trailing white space removed.
pub open spec fn trim_end_spec(s: Seq<char>) -> Seq<char>
    decreases s.len(),
{
    if s.len() > 0 && is_white_space(s.last()) {
        trim_end_spec(s.drop_last())
    } else {
        s
    }
}

/// `s` with white space removed at both ends.
pub open spec fn trim_spec(s: Seq<char>) -> Seq<char> {
    trim_end_spec(trim_start_spec(s))
}

proof fn lemma_trim_start_shape(s: Seq<char>)
    ensures
        exists|k: int| 0 <= k <= s.len() && trim_start_spec(s) == #[trigger] s.skip(k),
        trim_start_spec(s).len() > 0 ==> !is_white_space(trim_start_spec(s)[0]),
    decreases s.len(),
{
    if s.len() > 0 && is_white_space(s[0]) {
        lemma_trim_start_shape(s.drop_first());
        let k = choose|k: int| 0 <= k <= s.drop_first().len() && trim_start_spec(s.drop_first()) == #[trigger] s.drop_first().skip(k);
        assert(s.drop_first().skip(k) == s.skip(k + 1));
    } else {
        assert(s.skip(0) == s);
    }
}

proof fn lemma_trim_end_shape(s: Seq<char>)
    ensures
        exists|j: int| 0 <= j <= s.len() && trim_end_spec(s) == #[trigger] s.take(j),
        trim_end_spec(s).len() > 0 ==> !is_white_space(trim_end_spec(s).last()),
    decreases s.len(),
{
    if s.len() > 0 && is_white_space(s.last()) {
        lemma_trim_end_shape(s.drop_last());
        let j = choose|j: int| 0 <= j <= s.drop_last().len() && trim_end_spec(s.drop_last()) == #[trigger] s.drop_last().take(j);
        assert(s.drop_last().take(j) == s.take(j));
    } else {
        assert(s.take(s.len() as int) == s);
    }
}

/// A trimmed string has no white space at either end.
pub proof fn lemma_trim_ends(s: Seq<char>)
    ensures
        trim_spec(s).len() > 0 ==> !is_white_space(trim_spec(s)[0]) && !is_white_space(
            trim_spec(s).last(),
        ),
{
    let u = trim_start_spec(s);
    lemma_trim_start_shape(s);
    lemma_trim_end_shape(u);
    let j = choose|j: int| 0 <= j <= u.len() && trim_end_spec(u) == #[trigger] u.take(j);
    if trim_spec(s).len() > 0 {
        assert(trim_spec(s)[0] == u[0]);
    }
}

/// A string with no white space at either end is its own trimmed form.
pub proof fn lemma_trim_unchanged(s: Seq<char>)
    requires
        s.len() > 0 ==> !is_white_space(s[0]) && !is_white_space(s.last()),
    ensures
        trim_spec(s) == s,
{
}

/// Trimming removes white space at the ends and nothing else: the result is a
/// stretch of the text, everything before and after it is white space, and it does
/// not itself start or end with white space.
pub proof fn lemma_trim_removes_only_white_space(s: Seq<char>)
    ensures
        exists|i: int, j: int|
            0 <= i <= j <= s.len() && #[trigger] s.subrange(i, j) == trim_spec(s) && (forall|k: int|
                0 <= k < i ==> is_white_space(#[trigger] s[k])) && (forall|k: int|
                j <= k < s.len() ==> is_white_space(#[trigger] s[k])),
        trim_spec(s).len() > 0 ==> !is_white_space(trim_spec(s)[0]) && !is_white_space(
            trim_spec(s).last(),
        ),
{
    lemma_trim_ends(s);
    let (i, j) = lemma_trim_bounds(s);
    assert(s.subrange(i, j) == trim_spec(s));
}

proof fn lemma_trim_start_bound(s: Seq<char>) -> (i: int)
    ensures
        0 <= i <= s.len(),
        trim_start_spec(s) == s.skip(i),
        forall|k: int| 0 <= k < i ==> is_white_space(#[trigger] s[k]),
    decreases s.len(),
{
    if s.len() > 0 && is_white_space(s[0]) {
        let i1 = lemma_trim_start_bound(s.drop_first());
        assert(s.drop_first().skip(i1) == s.skip(i1 + 1));
        assert forall|k: int| 0 <= k < i1 + 1 implies is_white_space(#[trigger] s[k]) by {
            if k > 0 {
                assert(s[k] == s.drop_first()[k - 1]);
            }
        }
        i1 + 1
    } else {
        assert(s.skip(0) == s);
        0
    }
}

proof fn lemma_trim_end_bound(s: Seq<char>) -> (j: int)
    ensures
        0 <= j <= s.len(),
        trim_end_spec(s) == s.take(j),
        forall|k: int| j <= k < s.len() ==> is_white_space(#[trigger] s[k]),
    decreases s.len(),
{
    if s.len() > 0 && is_white_space(s.last()) {
        let j1 = lemma_trim_end_bound(s.drop_last());
        assert(s.drop_last().take(j1) == s.take(j1));
        assert forall|k: int| j1 <= k < s.len() implies is_white_space(#[trigger] s[k]) by {
            if k < s.len() - 1 {
                assert(s[k] == s.drop_last()[k]);
            }
        }
        j1
    } else {
        assert(s.take(s.len() as int) == s);
        s.len() as int
    }
}

proof fn lemma_trim_bounds(s: Seq<char>) -> (r: (int, int))
    ensures
        0 <= r.0 <= r.1 <= s.len(),
        trim_spec(s) == s.subrange(r.0, r.1),
        forall|k: int| 0 <= k < r.0 ==> is_white_space(#[trigger] s[k]),
        forall|k: int| r.1 <= k < s.len() ==> is_white_space(#[trigger] s[k]),
{
    let i = lemma_trim_start_bound(s);
    let u = s.skip(i);
    let j = lemma_trim_end_bound(u);
    assert(u.take(j) == s.subrange(i, i + j));
    assert forall|k: int| i + j <= k < s.len() implies is_white_space(#[trigger] s[k]) by {
        assert(s[k] == u[k - i]);
    }
    (i, i + j)
}

/// Trimming twice is trimming once.
pub proof fn lemma_trim_idempotent(s: Seq<char>)
    ensures
        trim_spec(trim_spec(s)) == trim_spec(s),
{
    lemma_trim_ends(s);
    lemma_trim_unchanged(trim_spec(s));
}

/// The characters of an optional string.
pub open spec fn opt_string_view(o: Option<String>) -> Option<Seq<char>> {
    match o {
        Some(s) => Some(s@),
        None => None,
    }
}

/// An optional text as shown to the user: the text, or a dash when there is none.
pub open spec fn or_dash(o: Option<Seq<char>>) -> Seq<char> {
    match o {
        Some(s) => s,
        None => "—"@,
    }
}

/// Shows an optional text: the text, or a dash when there is none.
pub fn text_or_dash(o: &Option<String>) -> (r: String)
    ensures
        r@ == or_dash(opt_string_view(*o)),
{
    match o {
        Some(s) => s.clone(),
        None => String::from_str("—"),
    }
}

/// Tests whether `c` has the Unicode `White_Space` property.
pub fn is_whitespace(c: char) -> (r: bool)
    ensures
        r == is_white_space(c),
{
    ('\u{9}' <= c && c <= '\u{d}') || c == ' ' || c == '\u{85}' || c == '\u{a0}'
        || c == '\u{1680}' || ('\u{2000}' <= c && c <= '\u{200a}') || c == '\u{2028}'
        || c == '\u{2029}' || c == '\u{202f}' || c == '\u{205f}' || c == '\u{3000}'
}

proof fn lemma_trim_start_skip(s: Seq<char>, i: int)
    requires
        0 <= i <= s.len(),
        forall|k: int| 0 <= k < i ==> is_white_space(#[trigger] s[k]),
    ensures
        trim_start_spec(s) == trim_start_spec(s.skip(i)),
    decreases i,
{
    if i > 0 {
        assert(s.skip(1) == s.drop_first());
        lemma_trim_start_skip(s.drop_first(), i - 1);
        assert(s.drop_first().skip(i - 1) == s.skip(i));
    } else {
        assert(s.skip(0) == s);
    }
}

proof fn lemma_trim_end_take(s: Seq<char>, j: int)
    requires
        0 <= j <= s.len(),
        forall|k: int| j <= k < s.len() ==> is_white_space(#[trigger] s[k]),
    ensures
        trim_end_spec(s) == trim_end_spec(s.take(j)),
    decreases s.len() - j,
{
    if j < s.len() {
        assert(s.take(s.len() - 1) == s.drop_last());
        lemma_trim_end_take(s.drop_last(), j);
        assert(s.drop_last().take(j) == s.take(j));
    } else {
        assert(s.take(j) == s);
    }
}

/// Removes leading and trailing white space, as `str::trim` does.
pub fn trim(s: &str) -> (r: &str)
    ensures
        r@ == trim_spec(s@),
{
    let n = s.unicode_len();
    let mut i: usize = 0;
    while i < n && is_whitespace(s.get_char(i))
        invariant
            n == s@.len(),
            i <= n,
            forall|k: int| 0 <= k < i ==> is_white_space(#[trigger] s@[k]),
        decreases n - i,
    {
        i = i + 1;
    }
    proof {
        lemma_trim_start_skip(s@, i as int);
    }
    let ghost rest = s@.skip(i as int);
    assert(i < n ==> !is_white_space(rest[0]));
    assert(i < n ==> trim_start_spec(rest) == rest);
    assert(i == n ==> trim_start_spec(rest) == rest);
    let mut j: usize = n;
    while j > i && is_whitespace(s.get_char(j - 1))
        invariant
            n == s@.len(),
            i <= j <= n,
            forall|k: int| j <= k < n ==> is_white_space(#[trigger] s@[k]),
        decreases j,
    {
        j = j - 1;
    }
    proof {
        let t = s@.skip(i as int);
        assert forall|k: int| j - i <= k < t.len() implies is_white_space(#[trigger] t[k]) by {
            assert(t[k] == s@[k + i]);
        }
        lemma_trim_end_take(t, j - i);
        let u = t.take(j - i);
        assert(u == s@.subrange(i as int, j as int));
        if j > i {
            assert(u.last() == s@[j - 1]);
        }
    }
    s.substring_char(i, j)
}


/// `s` with every trailing occurrence of `c` removed.
pub open spec fn trim_end_char_spec(s: Seq<char>, c: char) -> Seq<char>
    decreases s.len(),
{
    if s.len() > 0 && s.last() == c {
        trim_end_char_spec(s.drop_last(), c)
    } else {
        s
    }
}

proof fn lemma_trim_end_char_take(s: Seq<char>, c: char, j: int)
    requires
        0 <= j <= s.len(),
        forall|k: int| j <= k < s.len() ==> #[trigger] s[k] == c,
    ensures
        trim_end_char_spec(s, c) == trim_end_char_spec(s.take(j), c),
    decreases s.len() - j,
{
    if j < s.len() {
        assert(s.take(s.len() - 1) == s.drop_last());
        lemma_trim_end_char_take(s.drop_last(), c, j);
        assert(s.drop_last().take(j) == s.take(j));
    } else {
        assert(s.take(j) == s);
    }
}

/// Removes every trailing occurrence of `c`, as `str::trim_end_matches` does with a
/// `char` pattern.
pub fn trim_end_char(s: &str, c: char) -> (r: &str)
    ensures
        r@ == trim_end_char_spec(s@, c),
{
    let n = s.unicode_len();
    let mut j: usize = n;
    while j > 0 && s.get_char(j - 1) == c
        invariant
            n == s@.len(),
            j <= n,
            forall|k: int| j <= k < n ==> #[trigger] s@[k] == c,
        decreases j,
    {
        j = j - 1;
    }
    proof {
        lemma_trim_end_char_take(s@, c, j as int);
        let u = s@.take(j as int);
        if j > 0 {
            assert(u.last() == s@[j - 1]);
        }
    }
    s.substring_char(0, j)
}

/// Whether `p` is a prefix of `s`.
pub open spec fn has_prefix(s: Seq<char>, p: Seq<char>) -> bool {
    p.len() <= s.len() && s.take(p.len() as int) == p
}

/// Tests whether `p` is a prefix of `s`, as `str::starts_with` does with a string pattern.
pub fn starts_with(s: &str, p: &str) -> (r: bool)
    ensures
        r == has_prefix(s@, p@),
{
    let n = s.unicode_len();
    let m = p.unicode_len();
    if m > n {
        return false;
    }
    let mut i: usize = 0;
    while i < m
        invariant
            n == s@.len(),
            m == p@.len(),
            m <= n,
            i <= m,
            forall|k: int| 0 <= k < i ==> s@[k] == p@[k],
        decreases m - i,
    {
        if s.get_char(i) != p.get_char(i) {
            assert(s@.take(m as int)[i as int] != p@[i as int]);
            return false;
        }
        i = i + 1;
    }
    assert(s@.take(m as int) =~= p@);
    true
}

/// The characters of `s`, in order.
pub fn chars_of(s: &str) -> (v: Vec<char>)
    ensures
        v@ == s@,
{
    let mut v: Vec<char> = Vec::new();
    for c in it: s.chars()
        invariant
            it.seq() == s@,
            v@ == it.seq().take(it.index() as int),
    {
        assert(it.seq().take(it.index() + 1) == it.seq().take(it.index() as int).push(c));
        v.push(c);
    }
    assert(v@ == s@.take(s@.len() as int));
    v
}

/// Whether `n` occurs in `h` starting at position `i`.
pub open spec fn occurs_at(h: Seq<char>, n: Seq<char>, i: int) -> bool {
    0 <= i && i + n.len() <= h.len() && h.subrange(i, i + n.len()) == n
}

/// Whether `n` occurs anywhere in `h` (the empty sequence occurs in every sequence).
pub open spec fn contains_seq(h: Seq<char>, n: Seq<char>) -> bool {
    exists|i: int| occurs_at(h, n, i)
}

/// Tests whether `n` occurs in `h` starting at position `i`.
fn occurs_at_exec(h: &Vec<char>, n: &Vec<char>, i: usize) -> (r: bool)
    requires
        i + n@.len() <= h@.len(),
    ensures
        r == occurs_at(h@, n@, i as int),
{
    let m = n.len();
    let mut k: usize = 0;
    while k < m
        invariant
            m == n@.len(),
            i + m <= h@.len(),
            h@.len() == h.len(),
            k <= m,
            forall|t: int| 0 <= t < k ==> h@[i + t] == n@[t],
        decreases m - k,
    {
        if h[i + k] != n[k] {
            assert(h@.subrange(i as int, i + m)[k as int] != n@[k as int]);
            return false;
        }
        k = k + 1;
    }
    assert(h@.subrange(i as int, i + m) =~= n@);
    true
}

/// Tests whether the characters `n` occur in the characters `h`.
pub fn contains_chars(h: &Vec<char>, n: &Vec<char>) -> (r: bool)
    ensures
        r == contains_seq(h@, n@),
{
    let hl = h.len();
    let nl = n.len();
    if nl > hl {
        return false;
    }
    let mut i: usize = 0;
    loop
        invariant
            hl == h@.len(),
            nl == n@.len(),
            nl <= hl,
            i <= hl - nl,
            forall|t: int| 0 <= t < i ==> !occurs_at(h@, n@, t),
        decreases hl - nl - i,
    {
        if occurs_at_exec(h, n, i) {
            return true;
        }
        if i == hl - nl {
            return false;
        }
        i = i + 1;
    }
}

/// Tests whether `n` occurs in `h`, as `str::contains` does with a string pattern.
pub fn contains(h: &str, n: &str) -> (r: bool)
    ensures
        r == contains_seq(h@, n@),
{
    let hv = chars_of(h);
    let nv = chars_of(n);
    contains_chars(&hv, &nv)
}

/// Tests two strings for equality of their characters.
pub fn str_eq(a: &str, b: &str) -> (r: bool)
    ensures
        r == (a@ == b@),
{
    a.to_owned() == b.to_owned()
}

/// Whether every character of `s` is ASCII.
pub open spec fn all_ascii(s: Seq<char>) -> bool {
    forall|i: int| 0 <= i < s.len() ==> #[trigger] s[i] <= '\u{7f}'
}

/// The ASCII lower-case form of `c`: `A`–`Z` become `a`–`z`, all else stays.
pub open spec fn ascii_lower(c: char) -> char {
    if 'A' <= c && c <= 'Z' {
        ((c as int) + 32) as char
    } else {
        c
    }
}

/// `s` with `A`–`Z` turned into `a`–`z`.
pub open spec fn ascii_lowercase(s: Seq<char>) -> Seq<char> {
    s.map_values(|c: char| ascii_lower(c))
}

/// The lower-case form of `s` under Unicode's case mapping, as `str::to_lowercase`
/// computes it.
pub uninterp spec fn lowercase(s: Seq<char>) -> Seq<char>;

/// Calls `str::to_lowercase`. Claimed: the result is the lower-case form of the
/// argument, a function of its characters alone, and for ASCII text it is the text
/// with `A`–`Z` turned into `a`–`z` (Unicode's lower-case mapping of ASCII).
#[verifier::external_body]
pub(crate) fn to_lowercase(s: &str) -> (r: String)
    ensures
        r@ == lowercase(s@),
        all_ascii(s@) ==> r@ == ascii_lowercase(s@),
{
    s.to_lowercase()
}

proof fn lemma_trim_end_char_shape(s: Seq<char>, c: char)
    ensures
        exists|j: int| 0 <= j <= s.len() && trim_end_char_spec(s, c) == #[trigger] s.take(j),
        trim_end_char_spec(s, c).len() > 0 ==> trim_end_char_spec(s, c).last() != c,
    decreases s.len(),
{
    if s.len() > 0 && s.last() == c {
        lemma_trim_end_char_shape(s.drop_last(), c);
        let j = choose|j: int| 0 <= j <= s.drop_last().len() && trim_end_char_spec(s.drop_last(), c) == #[trigger] s.drop_last().take(j);
        assert(s.drop_last().take(j) == s.take(j));
    } else {
        assert(s.take(s.len() as int) == s);
    }
}

/// A host name trimmed of white space and then of trailing dots: its first character
/// (if any) is not white space, its last is not `c`, and it is ASCII when the input is.
pub proof fn lemma_trimmed_host_shape(h: Seq<char>, c: char)
    ensures
        ({
            let u = trim_end_char_spec(trim_spec(h), c);
            &&& u.len() > 0 ==> !is_white_space(u[0]) && u.last() != c
            &&& all_ascii(h) ==> all_ascii(u)
        }),
{
    let t = trim_spec(h);
    let u = trim_end_char_spec(t, c);
    lemma_trim_ends(h);
    lemma_trim_end_char_shape(t, c);
    let j = choose|j: int| 0 <= j <= t.len() && trim_end_char_spec(t, c) == #[trigger] t.take(j);
    if u.len() > 0 {
        assert(u[0] == t[0]);
    }
    let s0 = trim_start_spec(h);
    lemma_trim_start_shape(h);
    let k = choose|k: int| 0 <= k <= h.len() && trim_start_spec(h) == #[trigger] h.skip(k);
    lemma_trim_end_shape(s0);
    let m = choose|m: int| 0 <= m <= s0.len() && trim_end_spec(s0) == #[trigger] s0.take(m);
    if all_ascii(h) {
        assert forall|i: int| 0 <= i < u.len() implies #[trigger] u[i] <= '\u{7f}' by {
            assert(u[i] == t[i]);
            assert(t[i] == s0[i]);
            assert(s0[i] == h[i + k]);
        }
    }
}

/// Trimming keeps text ASCII.
pub proof fn lemma_trim_keeps_ascii(h: Seq<char>)
    ensures
        all_ascii(h) ==> all_ascii(trim_spec(h)),
{
    let s0 = trim_start_spec(h);
    lemma_trim_start_shape(h);
    let k = choose|k: int| 0 <= k <= h.len() && trim_start_spec(h) == #[trigger] h.skip(k);
    lemma_trim_end_shape(s0);
    let m = choose|m: int| 0 <= m <= s0.len() && trim_end_spec(s0) == #[trigger] s0.take(m);
    if all_ascii(h) {
        assert forall|i: int| 0 <= i < trim_spec(h).len() implies #[trigger] trim_spec(h)[i] <= '\u{7f}' by {
            assert(trim_spec(h)[i] == s0[i]);
            assert(s0[i] == h[i + k]);
        }
    }
}

/// Stripping trailing `c`s removes only `c`s from the end: the result is a prefix of
/// the text, everything after it is `c`, and it does not itself end in `c`.
pub proof fn lemma_trim_end_char_removes_only(s: Seq<char>, c: char)
    ensures
        exists|j: int|
            0 <= j <= s.len() && #[trigger] s.take(j) == trim_end_char_spec(s, c) && forall|k: int|
                j <= k < s.len() ==> #[trigger] s[k] == c,
        trim_end_char_spec(s, c).len() > 0 ==> trim_end_char_spec(s, c).last() != c,
    decreases s.len(),
{
    lemma_trim_end_char_shape(s, c);
    if s.len() > 0 && s.last() == c {
        lemma_trim_end_char_removes_only(s.drop_last(), c);
        let j = choose|j: int|
            0 <= j <= s.drop_last().len() && #[trigger] s.drop_last().take(j) == trim_end_char_spec(
                s.drop_last(),
                c,
            ) && forall|k: int| j <= k < s.drop_last().len() ==> #[trigger] s.drop_last()[k] == c;
        assert(s.drop_last().take(j) == s.take(j));
        assert forall|k: int| j <= k < s.len() implies #[trigger] s[k] == c by {
            if k < s.len() - 1 {
                assert(s[k] == s.drop_last()[k]);
            }
        }
    } else {
        assert(s.take(s.len() as int) == s);
    }
}

/// The number that a string of decimal digits stands for.
pub open spec fn digits_value(s: Seq<char>) -> nat
    decreases s.len(),
{
    if s.len() == 0 {
        0
    } else {
        digits_value(s.drop_last()) * 10 + ((s.last() as nat) - 48) as nat
    }
}

/// The decimal notation of `n` is made of the digits `0`–`9`, has no leading zero
/// (unless it is `0` itself), and stands for `n`.
pub proof fn lemma_decimal_value(n: nat)
    ensures
        decimal(n).len() > 0,
        forall|i: int| 0 <= i < decimal(n).len() ==> '0' <= #[trigger] decimal(n)[i] <= '9',
        decimal(n).len() > 1 ==> decimal(n)[0] != '0',
        digits_value(decimal(n)) == n,
    decreases n,
{
    if n >= 10 {
        lemma_decimal_value(n / 10);
        let p = decimal(n / 10);
        let d = decimal(n);
        assert(d == p + seq![digit_char(n % 10)]);
        assert(d.drop_last() =~= p);
        assert(d.last() == digit_char(n % 10));
        assert((digit_char(n % 10) as nat) == n % 10 + 48);
        assert(digits_value(d) == digits_value(p) * 10 + n % 10);
        assert(digits_value(p) == n / 10);
        assert((n / 10) * 10 + n % 10 == n) by (nonlinear_arith);
        assert forall|i: int| 0 <= i < d.len() implies '0' <= #[trigger] d[i] <= '9' by {
            if i < p.len() {
                assert(d[i] == p[i]);
            }
        }
        assert(d[0] == p[0]);
        if n / 10 < 10 {
            assert(p == seq![digit_char(n / 10)]);
            assert(p[0] == digit_char(n / 10));
        } else {
            assert(decimal(n / 10) == decimal(n / 10 / 10) + seq![digit_char(n / 10 % 10)]);
            lemma_decimal_value(n / 10 / 10);
        }
    } else {
        let d = decimal(n);
        assert(d.drop_last() =~= Seq::<char>::empty());
        assert(digits_value(d.drop_last()) == 0);
        assert((digit_char(n) as nat) == n + 48);
        assert(d.last() == digit_char(n));
        assert(digits_value(d) == n);
    }
}

/// ASCII lower-casing keeps text ASCII, keeps white space and dots where they are,
/// and changes nothing the second time.
pub proof fn lemma_ascii_lowercase(s: Seq<char>)
    ensures
        ascii_lowercase(s).len() == s.len(),
        all_ascii(s) ==> all_ascii(ascii_lowercase(s)),
        ascii_lowercase(ascii_lowercase(s)) == ascii_lowercase(s),
        forall|i: int|
            0 <= i < s.len() ==> (is_white_space(#[trigger] ascii_lowercase(s)[i]) <==> is_white_space(s[i]))
                && (ascii_lowercase(s)[i] == '.' <==> s[i] == '.'),
{
    assert(ascii_lowercase(ascii_lowercase(s)) =~= ascii_lowercase(s));
}

/// The decimal digit character for `d`.
pub open spec fn digit_char(d: nat) -> char {
    (d + 48) as char
}

/// The decimal notation of `n`, without leading zeros.
pub open spec fn decimal(n: nat) -> Seq<char>
    decreases n,
{
    if n < 10 {
        seq![digit_char(n)]
    } else {
        decimal(n / 10) + seq![digit_char(n % 10)]
    }
}

fn digit_str(d: u64) -> (r: &'static str)
    requires
        d < 10,
    ensures
        r@ == seq![digit_char(d as nat)],
{
    proof {
        reveal_strlit("0");
        reveal_strlit("1");
        reveal_strlit("2");
        reveal_strlit("3");
        reveal_strlit("4");
        reveal_strlit("5");
        reveal_strlit("6");
        reveal_strlit("7");
        reveal_strlit("8");
        reveal_strlit("9");
    }
    if d == 0 {
        "0"
    } else if d == 1 {
        "1"
    } else if d == 2 {
        "2"
    } else if d == 3 {
        "3"
    } else if d == 4 {
        "4"
    } else if d == 5 {
        "5"
    } else if d == 6 {
        "6"
    } else if d == 7 {
        "7"
    } else if d == 8 {
        "8"
    } else {
        "9"
    }
}

/// Writes `n` in decimal, as `u64`'s `Display` does.
pub fn u64_to_decimal(n: u64) -> (r: String)
    ensures
        r@ == decimal(n as nat),
{
    let mut m: u64 = n;
    let mut acc = String::new();
    loop
        invariant_except_break
            decimal(n as nat) == decimal(m as nat) + acc@,
        ensures
            acc@ == decimal(n as nat),
        decreases m,
    {
        let d = m % 10;
        let ghost old_acc = acc@;
        acc = String::from_str(digit_str(d)).concat(acc.as_str());
        if m < 10 {
            assert(decimal(n as nat) == seq![digit_char(m as nat)] + old_acc);
            break;
        }
        assert(decimal(m as nat) == decimal((m / 10) as nat) + seq![digit_char(d as nat)]);
        m = m / 10;
    }
    acc
}

} // verus!
