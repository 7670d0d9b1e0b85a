//! Text helpers: stripping trailing slashes and joining strings.

use vstd::prelude::*;
use vstd::string::StrSliceExecFns;
use vstd::string::StringExecFns;

verus! {

/// `s` with every trailing `'/'` removed, as `str::trim_end_matches('/')`
/// leaves it.
pub open spec fn trim_trailing_slashes(s: Seq<char>) -> Seq<char>
    decreases s.len(),
{
    if s.len() > 0 && s.last() == '/' {
        trim_trailing_slashes(s.drop_last())
    } else {
        s
    }
}

/// The shape of the trimmed text: it is a prefix of `s`, it does not end
/// in `'/'`, and everything cut off was a `'/'`.
pub proof fn lemma_trim_shape(s: Seq<char>)
    ensures
        trim_trailing_slashes(s).len() <= s.len(),
        trim_trailing_slashes(s) =~= s.subrange(0, trim_trailing_slashes(s).len() as int),
        trim_trailing_slashes(s).len() == 0 || trim_trailing_slashes(s).last() != '/',
        forall|i: int|
            trim_trailing_slashes(s).len() <= i < s.len() ==> #[trigger] s[i] == '/',
    decreases s.len(),
{
    if s.len() > 0 && s.last() == '/' {
        lemma_trim_shape(s.drop_last());
        let t = trim_trailing_slashes(s.drop_last());
        assert forall|i: int| t.len() <= i < s.len() implies #[trigger] s[i] == '/' by {
            if i < s.len() - 1 {
                assert(s.drop_last()[i] == s[i]);
            }
        }
        assert(t =~= s.subrange(0, t.len() as int)) by {
            assert(s.drop_last().subrange(0, t.len() as int) =~= s.subrange(0, t.len() as int));
        }
    }
}

/// Trimming twice gives what trimming once gave.
pub proof fn lemma_trim_idempotent(s: Seq<char>)
    ensures
        trim_trailing_slashes(trim_trailing_slashes(s)) == trim_trailing_slashes(s),
{
    lemma_trim_shape(s);
}

/// A base URL with a `'/'` appended trims to the same text as without it.
pub proof fn lemma_trailing_slash_ignored(s: Seq<char>)
    ensures
        trim_trailing_slashes(s.push('/')) == trim_trailing_slashes(s),
{
    assert(s.push('/').drop_last() =~= s);
}

/// Removes every trailing `'/'` from `s`.
pub fn trim_end_slashes(s: &str) -> (r: String)
    ensures
        r@ == trim_trailing_slashes(s@),
{
    let len = s.unicode_len();
    let mut n: usize = len;
    assert(s@.subrange(0, n as int) =~= s@);
    loop
        invariant
            n <= len,
            len == s@.len(),
            trim_trailing_slashes(s@.subrange(0, n as int)) == trim_trailing_slashes(s@),
        ensures
            n <= len,
            trim_trailing_slashes(s@.subrange(0, n as int)) == trim_trailing_slashes(s@),
            n == 0 || s@[n - 1] != '/',
        decreases n,
    {
        if n == 0 {
            break;
        }
        if s.get_char(n - 1) != '/' {
            break;
        }
        assert(s@.subrange(0, n as int).drop_last() =~= s@.subrange(0, n - 1));
        n = n - 1;
    }
    let kept = s.substring_char(0, n);
    assert(trim_trailing_slashes(kept@) == kept@);
    String::from_str(kept)
}

/// `base` followed by `tail`.
pub fn joined(base: &str, tail: &str) -> (r: String)
    ensures
        r@ == base@ + tail@,
{
    let mut r = String::from_str(base);
    r.append(tail);
    r
}

} // verus!
