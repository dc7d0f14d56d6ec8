//! String primitives shared by the template and the agent loop.

use vstd::prelude::*;

verus! {

/// `str::strip_prefix` with a string pattern: when `s` starts with `pat` the
/// result is the remainder after it, otherwise there is no result.
#[verifier::external_body]
pub(crate) fn strip_prefix<'a>(s: &'a str, pat: &str) -> (rest: Option<&'a str>)
    ensures
        match rest {
            Some(r) => s@ == pat@ + r@,
            None => !pat@.is_prefix_of(s@),
        },
{
    s.strip_prefix(pat)
}

/// `str::strip_suffix` with a string pattern: when `s` ends with `pat` the
/// result is the part before it, otherwise there is no result.
#[verifier::external_body]
pub(crate) fn strip_suffix<'a>(s: &'a str, pat: &str) -> (rest: Option<&'a str>)
    ensures
        match rest {
            Some(r) => s@ == r@ + pat@,
            None => !pat@.is_suffix_of(s@),
        },
{
    s.strip_suffix(pat)
}

/// A sequence that is `a` followed by `b` starts with `a` and ends with `b`.
pub proof fn lemma_concat_affixes<A>(a: Seq<A>, b: Seq<A>)
    ensures
        a.is_prefix_of(a + b),
        b.is_suffix_of(a + b),
        (a + b).subrange(0, a.len() as int) == a,
        (a + b).subrange(a.len() as int, (a + b).len() as int) == b,
{
    assert((a + b).subrange(0, a.len() as int) =~= a);
    assert((a + b).subrange(a.len() as int, (a + b).len() as int) =~= b);
}

/// Whether `s` starts with `pat`.
pub fn starts_with(s: &str, pat: &str) -> (b: bool)
    ensures
        b == pat@.is_prefix_of(s@),
{
    match strip_prefix(s, pat) {
        Some(r) => {
            proof {
                lemma_concat_affixes(pat@, r@);
            }
            true
        },
        None => false,
    }
}

/// Whether `s` ends with `pat`.
pub fn ends_with(s: &str, pat: &str) -> (b: bool)
    ensures
        b == pat@.is_suffix_of(s@),
{
    match strip_suffix(s, pat) {
        Some(r) => {
            proof {
                lemma_concat_affixes(r@, pat@);
            }
            true
        },
        None => false,
    }
}

/// What is left of `s` once the suffix `pat` is taken away.
pub open spec fn without_suffix(s: Seq<char>, pat: Seq<char>) -> Seq<char> {
    s.subrange(0, s.len() - pat.len())
}

/// What is left of `s` once the prefix `pat` is taken away.
pub open spec fn without_prefix(s: Seq<char>, pat: Seq<char>) -> Seq<char> {
    s.subrange(pat.len() as int, s.len() as int)
}

/// How a text that is joined of two ends: `pat` is a suffix of `text`
/// followed by `tail` exactly when it is a suffix of `tail`, or reaches
/// back beyond `tail` and is, before `tail`, a suffix of `text`.
pub proof fn lemma_suffix_of_joined(text: Seq<char>, tail: Seq<char>, pat: Seq<char>)
    ensures
        pat.is_suffix_of(text + tail) <==> if pat.len() <= tail.len() {
            pat.is_suffix_of(tail)
        } else {
            tail.is_suffix_of(pat) && without_suffix(pat, tail).is_suffix_of(text)
        },
{
    let joined = text + tail;
    let cut = joined.len() - pat.len();
    if pat.len() <= joined.len() {
        if pat.len() <= tail.len() {
            let from = tail.len() - pat.len();
            assert(joined.subrange(cut, joined.len() as int) =~= tail.subrange(
                from,
                tail.len() as int,
            ));
        } else {
            let head = without_suffix(pat, tail);
            let from = text.len() - head.len();
            if pat.is_suffix_of(joined) {
                assert(tail =~= pat.subrange(pat.len() - tail.len(), pat.len() as int)) by {
                    assert forall|i: int| 0 <= i < tail.len() implies tail[i] == pat[pat.len()
                        - tail.len() + i] by {
                        let k = pat.len() - tail.len() + i;
                        assert(pat[k] == joined.subrange(cut, joined.len() as int)[k]);
                    }
                }
                assert(head =~= text.subrange(from, text.len() as int)) by {
                    assert forall|i: int| 0 <= i < head.len() implies head[i] == text[from + i] by {
                        assert(pat[i] == joined.subrange(cut, joined.len() as int)[i]);
                    }
                }
            }
            if tail.is_suffix_of(pat) && head.is_suffix_of(text) {
                assert(pat =~= head + tail);
                assert(text =~= without_suffix(text, head) + head);
                assert(joined =~= without_suffix(text, head) + pat);
                lemma_concat_affixes(without_suffix(text, head), pat);
            }
        }
    }
}

/// Whether `text`, once `tail` is appended to it, ends with `pat`.
///
/// The answer is found without building the joined text: either `tail` alone
/// ends with `pat`, or `pat` ends with `tail` and what precedes it in `pat`
/// is a suffix of `text`.
pub fn joined_ends_with(text: &str, tail: &str, pat: &str) -> (b: bool)
    ensures
        b == pat@.is_suffix_of(text@ + tail@),
{
    proof {
        lemma_suffix_of_joined(text@, tail@, pat@);
    }
    match strip_suffix(tail, pat) {
        Some(rest) => {
            proof {
                lemma_concat_affixes(rest@, pat@);
            }
            true
        },
        None => match strip_suffix(pat, tail) {
            Some(head) => {
                proof {
                    lemma_concat_affixes(head@, tail@);
                    assert(head@ =~= without_suffix(pat@, tail@));
                    if pat@.len() <= tail@.len() {
                        assert(pat@ =~= tail@);
                    }
                }
                ends_with(text, head)
            },
            None => false,
        },
    }
}

} // verus!
