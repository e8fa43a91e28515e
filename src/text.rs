//! Character-level helpers on lines of text: trimming, prefix and suffix
//! stripping and splitting on the first `=`.
use vstd::prelude::*;

verus! {

/// The characters with the Unicode `White_Space` property.
pub open spec fn is_white_space(c: char) -> bool {
    let u = c as u32;
    (0x9 <= u && u <= 0xd) || u == 0x20 || u == 0x85 || u == 0xa0 || u == 0x1680 || (0x2000 <= u
        && u <= 0x200a) || u == 0x2028 || u == 0x2029 || u == 0x202f || u == 0x205f || u == 0x3000
}

/// `s` without its leading white space.
pub open spec fn trim_start(s: Seq<char>) -> Seq<char>
    decreases s.len(),
{
    if s.len() > 0 && is_white_space(s[0]) {
        trim_start(s.drop_first())
    } else {
        s
    }
}

/// `s` without its trailing white space.
pub open spec fn trim_end(s: Seq<char>) -> Seq<char>
    decreases s.len(),
{
    if s.len() > 0 && is_white_space(s.last()) {
        trim_end(s.drop_last())
    } else {
        s
    }
}

/// `s` without its surrounding white space.
pub open spec fn trimmed(s: Seq<char>) -> Seq<char> {
    trim_end(trim_start(s))
}

pub open spec fn has_prefix(s: Seq<char>, p: Seq<char>) -> bool {
    p.len() <= s.len() && s.subrange(0, p.len() as int) == p
}

pub open spec fn has_suffix(s: Seq<char>, p: Seq<char>) -> bool {
    p.len() <= s.len() && s.subrange(s.len() - p.len(), s.len() as int) == p
}

/// `s` without the prefix `p`, or `s` itself where it does not start with `p`.
pub open spec fn strip_prefix_or_keep(s: Seq<char>, p: Seq<char>) -> Seq<char> {
    if has_prefix(s, p) {
        s.subrange(p.len() as int, s.len() as int)
    } else {
        s
    }
}

/// `s` without the suffix `p`, or `s` itself where it does not end with `p`.
pub open spec fn strip_suffix_or_keep(s: Seq<char>, p: Seq<char>) -> Seq<char> {
    if has_suffix(s, p) {
        s.subrange(0, s.len() - p.len())
    } else {
        s
    }
}

/// `s` split around its first `=`, or `None` where it holds none.
pub open spec fn split_first_eq(s: Seq<char>) -> Option<(Seq<char>, Seq<char>)> {
    if exists|i: int|
        0 <= i < s.len() && s[i] == '=' && forall|j: int| 0 <= j < i ==> s[j] != '=' {
        let i = choose|i: int|
            0 <= i < s.len() && s[i] == '=' && forall|j: int| 0 <= j < i ==> s[j] != '=';
        Some((s.subrange(0, i), s.subrange(i + 1, s.len() as int)))
    } else {
        None
    }
}

/// Whether `c` has the Unicode `White_Space` property.
pub fn is_whitespace_char(c: char) -> (r: bool)
    ensures
        r == is_white_space(c),
{
    let u = c as u32;
    (0x9 <= u && u <= 0xd) || u == 0x20 || u == 0x85 || u == 0xa0 || u == 0x1680 || (0x2000 <= u
        && u <= 0x200a) || u == 0x2028 || u == 0x2029 || u == 0x202f || u == 0x205f || u == 0x3000
}

/// The position of the first character of `s` that is not white space, or
/// the length of `s` where there is none.
fn leading_white_space(s: &str) -> (start: usize)
    ensures
        start <= s@.len(),
        trim_start(s@) == s@.subrange(start as int, s@.len() as int),
{
    let n = s.unicode_len();
    let mut start: usize = 0;
    assert(s@.subrange(0, n as int) =~= s@);
    while start < n && is_whitespace_char(s.get_char(start))
        invariant
            n == s@.len(),
            start <= n,
            trim_start(s@) == trim_start(s@.subrange(start as int, n as int)),
        decreases n - start,
    {
        assert(s@.subrange(start as int, n as int).drop_first() =~= s@.subrange(
            start as int + 1,
            n as int,
        ));
        start = start + 1;
    }
    start
}

/// Copies `s` without its leading white space.
pub fn trim_leading(s: &str) -> (r: String)
    ensures
        r@ == trim_start(s@),
{
    let start = leading_white_space(s);
    s.substring_char(start, s.unicode_len()).to_owned()
}

/// Copies `s` without its surrounding white space.
pub fn trim(s: &str) -> (r: String)
    ensures
        r@ == trimmed(s@),
{
    let n = s.unicode_len();
    let start = leading_white_space(s);
    let mut end: usize = n;
    while end > start && is_whitespace_char(s.get_char(end - 1))
        invariant
            n == s@.len(),
            start <= end <= n,
            trim_start(s@) == s@.subrange(start as int, n as int),
            trimmed(s@) == trim_end(s@.subrange(start as int, end as int)),
        decreases end - start,
    {
        assert(s@.subrange(start as int, end as int).drop_last() =~= s@.subrange(
            start as int,
            end as int - 1,
        ));
        end = end - 1;
    }
    s.substring_char(start, end).to_owned()
}

/// Whether `s` starts with `p`.
pub fn starts_with(s: &str, p: &str) -> (r: bool)
    ensures
        r == has_prefix(s@, p@),
{
    let n = s.unicode_len();
    let m = p.unicode_len();
    if m > n {
        return false;
    }
    let mut i: usize = 0;
    while i < m
        invariant
            n == s@.len(),
            m == p@.len(),
            m <= n,
            i <= m,
            forall|j: int| 0 <= j < i ==> s@[j] == p@[j],
        decreases m - i,
    {
        if s.get_char(i) != p.get_char(i) {
            assert(s@.subrange(0, m as int)[i as int] != p@[i as int]);
            return false;
        }
        i = i + 1;
    }
    assert(s@.subrange(0, m as int) =~= p@);
    true
}

/// Whether `s` ends with `p`.
pub fn ends_with(s: &str, p: &str) -> (r: bool)
    ensures
        r == has_suffix(s@, p@),
{
    let n = s.unicode_len();
    let m = p.unicode_len();
    if m > n {
        return false;
    }
    let d = n - m;
    let mut i: usize = 0;
    while i < m
        invariant
            n == s@.len(),
            m == p@.len(),
            d == n - m,
            i <= m,
            forall|j: int| 0 <= j < i ==> s@[d + j] == p@[j],
        decreases m - i,
    {
        if s.get_char(d + i) != p.get_char(i) {
            assert(s@.subrange(d as int, n as int)[i as int] != p@[i as int]);
            return false;
        }
        i = i + 1;
    }
    assert(s@.subrange(d as int, n as int) =~= p@);
    true
}

/// Copies `s` without the prefix `p`, or whole where it does not start with `p`.
pub fn strip_prefix_or_whole(s: &str, p: &str) -> (r: String)
    ensures
        r@ == strip_prefix_or_keep(s@, p@),
{
    if starts_with(s, p) {
        s.substring_char(p.unicode_len(), s.unicode_len()).to_owned()
    } else {
        s.to_owned()
    }
}

/// Copies `s` without the suffix `p`, or whole where it does not end with `p`.
pub fn strip_suffix_or_whole(s: &str, p: &str) -> (r: String)
    ensures
        r@ == strip_suffix_or_keep(s@, p@),
{
    if ends_with(s, p) {
        let n = s.unicode_len();
        s.substring_char(0, n - p.unicode_len()).to_owned()
    } else {
        s.to_owned()
    }
}

/// Splits `s` around its first `=` into the text before and the text after it.
pub fn split_once_eq(s: &str) -> (r: Option<(String, String)>)
    ensures
        r matches Some((k, v)) ==> split_first_eq(s@) == Some((k@, v@)),
        r is None ==> split_first_eq(s@) is None,
{
    let n = s.unicode_len();
    let mut i: usize = 0;
    while i < n
        invariant
            n == s@.len(),
            i <= n,
            forall|j: int| 0 <= j < i ==> s@[j] != '=',
        decreases n - i,
    {
        if s.get_char(i) == '=' {
            let ghost si = i as int;
            assert(0 <= si < s@.len() && s@[si] == '=');
            let ghost c = choose|c: int|
                0 <= c < s@.len() && s@[c] == '=' && forall|j: int| 0 <= j < c ==> s@[j] != '=';
            assert(c == si);
            let k = s.substring_char(0, i).to_owned();
            let v = s.substring_char(i + 1, n).to_owned();
            return Some((k, v));
        }
        i = i + 1;
    }
    None
}

} // verus!
