//! Placeholder substitution in command templates.
use vstd::prelude::*;
use vstd::std_specs::iter::IteratorSpec;
use vstd::string::*;

verus! {

broadcast use vstd::string::group_string_axioms;

/// `s` with each occurrence of `pat` replaced by `rep`. Occurrences are found
/// from the left and do not overlap; an empty `pat` occurs before each
/// character and once more at the end.
pub open spec fn replaced(s: Seq<char>, pat: Seq<char>, rep: Seq<char>) -> Seq<char>
    decreases s.len(),
{
    if pat.len() == 0 {
        if s.len() == 0 {
            rep
        } else {
            rep + seq![s[0]] + replaced(s.drop_first(), pat, rep)
        }
    } else if s.len() == 0 {
        s
    } else if pat.is_prefix_of(s) {
        rep + replaced(s.skip(pat.len() as int), pat, rep)
    } else {
        seq![s[0]] + replaced(s.drop_first(), pat, rep)
    }
}

/// `s` after each substitution in turn, the first pair first: each pair is a
/// key and the value that replaces it.
pub open spec fn substituted(s: Seq<char>, subs: Seq<(Seq<char>, Seq<char>)>) -> Seq<char>
    decreases subs.len(),
{
    if subs.len() == 0 {
        s
    } else {
        replaced(substituted(s, subs.drop_last()), subs.last().0, subs.last().1)
    }
}

/// Whether `pat` occurs in `s`, starting at one of its characters.
pub open spec fn occurs_in(pat: Seq<char>, s: Seq<char>) -> bool {
    exists|i: int| 0 <= i < s.len() && #[trigger] pat.is_prefix_of(s.skip(i))
}

/// The characters of `s`, in order.
pub(crate) fn chars_of(s: &str) -> (v: Vec<char>)
    ensures
        v@ == s@,
{
    let mut v: Vec<char> = Vec::new();
    for c in it: s.chars()
        invariant
            v@ == it.seq().take(it.index() as int),
    {
        v.push(c);
    }
    v
}


/// Whether `pat` occurs in `s` at character position `i`.
pub(crate) fn occurs_at(s: &Vec<char>, pat: &Vec<char>, i: usize) -> (r: bool)
    requires
        i <= s@.len(),
    ensures
        r == pat@.is_prefix_of(s@.skip(i as int)),
{
    if pat.len() > s.len() - i {
        return false;
    }
    let mut k: usize = 0;
    while k < pat.len()
        invariant
            s@.len() <= usize::MAX,
            i + pat@.len() <= s@.len(),
            k <= pat@.len(),
            forall|j: int| 0 <= j < k ==> s@[i + j] == pat@[j],
        decreases pat@.len() - k,
    {
        if s[i + k] != pat[k] {
            assert(s@.skip(i as int)[k as int] != pat@[k as int]);
            return false;
        }
        k = k + 1;
    }
    assert(pat@ =~= s@.skip(i as int).subrange(0, pat@.len() as int));
    true
}

/// `s` with every occurrence of `pat` replaced by `rep`, as `str::replace`
/// does it.
pub fn replace(s: &str, pat: &str, rep: &str) -> (r: String)
    ensures
        r@ == replaced(s@, pat@, rep@),
{
    let sc = chars_of(s);
    let n = sc.len();
    let mut out = String::new();
    let pc = chars_of(pat);
    if pc.len() == 0 {
        let mut i: usize = 0;
        assert(s@.skip(0) =~= s@);
        while i < n
            invariant
                n == s@.len(),
                pat@.len() == 0,
                i <= n,
                replaced(s@, pat@, rep@) == out@ + replaced(s@.skip(i as int), pat@, rep@),
            decreases n - i,
        {
            let ghost rest = s@.skip(i as int);
            assert(rest.drop_first() =~= s@.skip(i + 1));
            assert(rest[0] == s@[i as int]);
            out.append(rep);
            out.append(s.substring_char(i, i + 1));
            assert(s@.subrange(i as int, i + 1) =~= seq![s@[i as int]]);
            i = i + 1;
        }
        assert(s@.skip(n as int) =~= Seq::<char>::empty());
        out.append(rep);
        return out;
    }
    let mut start: usize = 0;
    let mut i: usize = 0;
    assert(s@.skip(0) =~= s@);
    while i < n
        invariant
            n == s@.len(),
            sc@ == s@,
            pc@ == pat@,
            pat@.len() > 0,
            start <= i <= n,
            replaced(s@, pat@, rep@)
                == out@ + s@.subrange(start as int, i as int) + replaced(s@.skip(i as int), pat@, rep@),
        decreases n - i,
    {
        let ghost rest = s@.skip(i as int);
        if occurs_at(&sc, &pc, i) {
            let m = pc.len();
            assert(rest.skip(m as int) =~= s@.skip(i + m));
            out.append(s.substring_char(start, i));
            out.append(rep);
            i = i + m;
            start = i;
            assert(s@.subrange(start as int, i as int) =~= Seq::<char>::empty());
        } else {
            assert(rest.drop_first() =~= s@.skip(i + 1));
            assert(s@.subrange(start as int, i + 1) =~= s@.subrange(start as int, i as int) + seq![rest[0]]);
            i = i + 1;
        }
    }
    assert(s@.skip(n as int) =~= Seq::<char>::empty());
    out.append(s.substring_char(start, n));
    out
}


/// `input` with each key of `substitutions` replaced by its value, one pair
/// after the other in the order given.
pub fn replace_all(input: String, substitutions: &Vec<(String, String)>) -> (r: String)
    ensures
        r@ == substituted(input@, substitutions.deep_view()),
{
    let ghost subs = substitutions.deep_view();
    let ghost orig = input@;
    let mut input = input;
    for i in 0..substitutions.len()
        invariant
            subs == substitutions.deep_view(),
            input@ == substituted(orig, subs.take(i as int)),
    {
        let pair = &substitutions[i];
        assert(subs.take(i + 1).drop_last() =~= subs.take(i as int));
        input = replace(input.as_str(), pair.0.as_str(), pair.1.as_str());
    }
    assert(subs.take(subs.len() as int) =~= subs);
    input
}

/// Each argument with `replace_all` applied to it.
pub fn replace_args(args: Vec<String>, substitutions: &Vec<(String, String)>) -> (r: Vec<String>)
    ensures
        r@.len() == args@.len(),
        forall|i: int|
            0 <= i < args@.len() ==> #[trigger] r@[i]@ == substituted(
                args@[i]@,
                substitutions.deep_view(),
            ),
{
    let mut r: Vec<String> = Vec::new();
    for arg in it: args
        invariant
            r@.len() == it.index(),
            forall|i: int|
                0 <= i < it.index() ==> #[trigger] r@[i]@ == substituted(
                    it.seq()[i]@,
                    substitutions.deep_view(),
                ),
    {
        r.push(replace_all(arg, substitutions));
    }
    r
}

/// Replacing a pattern that does not occur leaves the text as it is.
pub proof fn lemma_replaced_absent(s: Seq<char>, pat: Seq<char>, rep: Seq<char>)
    requires
        pat.len() > 0,
        !occurs_in(pat, s),
    ensures
        replaced(s, pat, rep) == s,
    decreases s.len(),
{
    if s.len() > 0 {
        assert(s.skip(0) =~= s);
        assert(!pat.is_prefix_of(s.skip(0)));
        let t = s.drop_first();
        assert forall|i: int| 0 <= i < t.len() implies !#[trigger] pat.is_prefix_of(t.skip(i)) by {
            assert(t.skip(i) =~= s.skip(i + 1));
        }
        lemma_replaced_absent(t, pat, rep);
        assert(seq![s[0]] + t =~= s);
    }
}

/// A text in which no key occurs comes out of substitution unchanged.
pub proof fn lemma_substituted_without_keys(s: Seq<char>, subs: Seq<(Seq<char>, Seq<char>)>)
    requires
        forall|k: int| 0 <= k < subs.len() ==> (#[trigger] subs[k]).0.len() > 0 && !occurs_in(subs[k].0, s),
    ensures
        substituted(s, subs) == s,
    decreases subs.len(),
{
    if subs.len() > 0 {
        let prefix = subs.drop_last();
        assert forall|k: int| 0 <= k < prefix.len() implies (#[trigger] prefix[k]).0.len() > 0 && !occurs_in(prefix[k].0, s) by {
            assert(prefix[k] == subs[k]);
        }
        lemma_substituted_without_keys(s, prefix);
        lemma_replaced_absent(s, subs.last().0, subs.last().1);
    }
}

} // verus!
