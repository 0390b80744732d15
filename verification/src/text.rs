//! Normalization of the base URL: removal of trailing slash characters.

use vstd::prelude::*;
use vstd::string::*;

verus! {

/// The characters of `s` with every trailing `'/'` removed.
pub open spec fn trim_trailing_slashes_spec(s: Seq<char>) -> Seq<char>
    decreases s.len(),
{
    if s.len() > 0 && s[s.len() - 1] == '/' {
        trim_trailing_slashes_spec(s.drop_last())
    } else {
        s
    }
}

/// Law: trimming yields the prefix of `s` that stops right before its
/// trailing slashes. The result is a prefix of `s`, it does not end in
/// `'/'`, and every character of `s` past it is `'/'`. In particular, for a
/// base URL ending in one or more `'/'`, the stored base URL is that URL
/// with all trailing `'/'` removed.
pub proof fn lemma_trim_trailing_slashes(s: Seq<char>)
    ensures
        trim_trailing_slashes_spec(s).len() <= s.len(),
        trim_trailing_slashes_spec(s) == s.subrange(
            0,
            trim_trailing_slashes_spec(s).len() as int,
        ),
        trim_trailing_slashes_spec(s).len() > 0 ==> trim_trailing_slashes_spec(s).last() != '/',
        forall|j: int| trim_trailing_slashes_spec(s).len() <= j < s.len() ==> s[j] == '/',
    decreases s.len(),
{
    if s.len() > 0 && s[s.len() - 1] == '/' {
        let s1 = s.drop_last();
        lemma_trim_trailing_slashes(s1);
        let t = trim_trailing_slashes_spec(s);
        assert(s1 =~= s.subrange(0, s.len() - 1));
        assert(s1.subrange(0, t.len() as int) =~= s.subrange(0, t.len() as int));
        assert forall|j: int| t.len() <= j < s.len() implies s[j] == '/' by {
            if j < s.len() - 1 {
                assert(s[j] == s1[j]);
            }
        }
    } else {
        assert(trim_trailing_slashes_spec(s) =~= s.subrange(0, s.len() as int));
    }
}

/// Trimming is settled by the first position `end` from which on every
/// character is `'/'`: the trimmed sequence is exactly `s` up to `end`.
proof fn lemma_trim_fixed_by_cut(s: Seq<char>, end: int)
    requires
        0 <= end <= s.len(),
        forall|j: int| end <= j < s.len() ==> s[j] == '/',
        end > 0 ==> s[end - 1] != '/',
    ensures
        trim_trailing_slashes_spec(s) == s.subrange(0, end),
    decreases s.len(),
{
    if end == s.len() {
        assert(s.subrange(0, end) =~= s);
    } else {
        let s1 = s.drop_last();
        assert(s[s.len() - 1] == '/');
        assert forall|j: int| end <= j < s1.len() implies s1[j] == '/' by {
            assert(s1[j] == s[j]);
        }
        lemma_trim_fixed_by_cut(s1, end);
        assert(s1.subrange(0, end) =~= s.subrange(0, end));
    }
}

/// A copy of `s` with every trailing `'/'` removed, as the constructor
/// normalizes its base URL.
pub fn trim_trailing_slashes(s: &str) -> (r: String)
    ensures
        r@ == trim_trailing_slashes_spec(s@),
{
    let len = s.unicode_len();
    let mut end = len;
    while end > 0 && s.get_char(end - 1) == '/'
        invariant
            end <= len,
            len == s@.len(),
            forall|j: int| end <= j < len ==> s@[j] == '/',
        decreases end,
    {
        end = end - 1;
    }
    proof {
        lemma_trim_fixed_by_cut(s@, end as int);
    }
    s.substring_char(0, end).to_owned()
}

} // verus!
