//! Small string operations the message logic needs, stated over the
//! characters of the strings.

use vstd::prelude::*;

verus! {

/// Whether `s` ends with `suffix`.
pub open spec fn has_suffix(s: Seq<char>, suffix: Seq<char>) -> bool {
    suffix.len() <= s.len() && s.subrange(s.len() - suffix.len(), s.len() as int) == suffix
}

/// `s` with every trailing repetition of `suffix` removed, as
/// `str::trim_end_matches` does; an empty `suffix` removes nothing.
pub open spec fn trim_suffix_all(s: Seq<char>, suffix: Seq<char>) -> Seq<char>
    decreases s.len(),
{
    if suffix.len() > 0 && has_suffix(s, suffix) {
        trim_suffix_all(s.subrange(0, s.len() - suffix.len()), suffix)
    } else {
        s
    }
}

/// Trimming leaves no trailing `suffix` (when it is not empty), and keeps a
/// prefix of the text.
pub proof fn lemma_trim_suffix_all(s: Seq<char>, suffix: Seq<char>)
    requires
        suffix.len() > 0,
    ensures
        !has_suffix(trim_suffix_all(s, suffix), suffix),
        trim_suffix_all(s, suffix).len() <= s.len(),
        trim_suffix_all(s, suffix) == s.subrange(0, trim_suffix_all(s, suffix).len() as int),
    decreases s.len(),
{
    if has_suffix(s, suffix) {
        let t = s.subrange(0, s.len() - suffix.len());
        lemma_trim_suffix_all(t, suffix);
        let r = trim_suffix_all(t, suffix);
        assert(r == s.subrange(0, r.len() as int));
    } else {
        assert(s == s.subrange(0, s.len() as int));
    }
}

/// Whether the first character of `s` is `c`.
pub open spec fn starts_with_char(s: Seq<char>, c: char) -> bool {
    s.len() > 0 && s[0] == c
}

/// Whether the first character of `s` is `c`.
pub fn first_char_is(s: &str, c: char) -> (res: bool)
    ensures
        res == starts_with_char(s@, c),
{
    if s.unicode_len() == 0 {
        false
    } else {
        s.get_char(0) == c
    }
}

/// Whether the first `len` characters of `s` end with `suffix`.
fn prefix_has_suffix(s: &str, len: usize, suffix: &str, suffix_len: usize) -> (res: bool)
    requires
        len <= s@.len(),
        suffix_len == suffix@.len(),
    ensures
        res == has_suffix(s@.subrange(0, len as int), suffix@),
{
    if suffix_len > len {
        return false;
    }
    let start = len - suffix_len;
    let mut j: usize = 0;
    while j < suffix_len
        invariant
            len <= s@.len(),
            suffix_len == suffix@.len(),
            start == len - suffix_len,
            j <= suffix_len,
            forall|k: int| 0 <= k < j ==> s@[start + k] == suffix@[k],
        decreases suffix_len - j,
    {
        if s.get_char(start + j) != suffix.get_char(j) {
            assert(s@.subrange(0, len as int).subrange(start as int, len as int)[j as int]
                != suffix@[j as int]);
            return false;
        }
        j = j + 1;
    }
    assert(s@.subrange(0, len as int).subrange(start as int, len as int) =~= suffix@);
    true
}

/// `s` with every trailing repetition of `suffix` removed.
pub fn trim_end_matches(s: &str, suffix: &str) -> (res: String)
    ensures
        res@ == trim_suffix_all(s@, suffix@),
{
    let n = suffix.unicode_len();
    let mut len = s.unicode_len();
    assert(s@.subrange(0, len as int) =~= s@);
    if n > 0 {
        while prefix_has_suffix(s, len, suffix, n)
            invariant
                n == suffix@.len(),
                n > 0,
                len <= s@.len(),
                trim_suffix_all(s@, suffix@) == trim_suffix_all(s@.subrange(0, len as int), suffix@),
            decreases len,
        {
            assert(s@.subrange(0, len as int).subrange(0, len - n) =~= s@.subrange(0, len - n));
            len = len - n;
        }
    }
    String::from_str(s.substring_char(0, len))
}

/// The concatenation of four strings.
pub fn concat4(a: &str, b: &str, c: &str, d: &str) -> (res: String)
    ensures
        res@ == a@ + b@ + c@ + d@,
{
    let mut r = String::from_str(a);
    r.append(b);
    r.append(c);
    r.append(d);
    r
}

} // verus!
