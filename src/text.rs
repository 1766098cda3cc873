//! Character-level operations on strings.
use vstd::prelude::*;
use vstd::std_specs::iter::IteratorSpec;

verus! {

/// The characters of a string, in order.
pub fn chars_of(s: &str) -> (v: Vec<char>)
    ensures
        v@ == s@,
{
    let mut v: Vec<char> = Vec::new();
    let mut it = s.chars();
    loop
        invariant
            v@ + it.remaining() == s@,
            it.obeys_prophetic_iter_laws(),
            it.decrease() is Some,
        ensures
            v@ == s@,
        decreases it.decrease()->0,
    {
        match it.next() {
            Some(c) => {
                v.push(c);
            },
            None => {
                assert(v@ + it.remaining() =~= v@);
                break;
            },
        }
    }
    v
}

/// Whether `v[start..end]` is exactly `lit`.
pub fn span_is(v: &Vec<char>, start: usize, end: usize, lit: &[char]) -> (r: bool)
    requires
        start <= end <= v@.len(),
    ensures
        r == (v@.subrange(start as int, end as int) == lit@),
{
    if end - start != lit.len() {
        return false;
    }
    let mut i: usize = 0;
    while i < lit.len()
        invariant
            end - start == lit@.len(),
            start <= end <= v@.len(),
            i <= lit@.len(),
            forall|j: int| 0 <= j < i ==> v@[start + j] == lit@[j],
        decreases lit@.len() - i,
    {
        if v[start + i] != lit[i] {
            assert(v@.subrange(start as int, end as int)[i as int] != lit@[i as int]);
            return false;
        }
        i = i + 1;
    }
    assert(v@.subrange(start as int, end as int) =~= lit@);
    true
}

/// `s` with each occurrence of `pat` replaced by `rep`, scanning from the
/// left; occurrences do not overlap.
pub open spec fn replace_all(s: Seq<char>, pat: Seq<char>, rep: Seq<char>) -> Seq<char>
    decreases s.len(),
{
    if pat.len() == 0 || s.len() == 0 {
        s
    } else if pat.len() <= s.len() && s.subrange(0, pat.len() as int) == pat {
        rep + replace_all(s.subrange(pat.len() as int, s.len() as int), pat, rep)
    } else {
        seq![s[0]] + replace_all(s.drop_first(), pat, rep)
    }
}

/// Replaces every occurrence of `pat` in `s` by `rep`.
pub fn replace_str(s: &str, pat: &str, rep: &str) -> (r: String)
    requires
        pat@.len() > 0,
    ensures
        r@ == replace_all(s@, pat@, rep@),
{
    let v = chars_of(s);
    let pv = chars_of(pat);
    let n = v.len();
    let m = pv.len();
    let mut out = String::new();
    let mut last: usize = 0;
    let mut i: usize = 0;
    assert(s@.subrange(0, n as int) =~= s@);
    assert(out@ + s@.subrange(0, 0) =~= Seq::<char>::empty());
    while i < n
        invariant
            last <= i <= n,
            n == v@.len(),
            m == pv@.len(),
            m > 0,
            v@ == s@,
            pv@ == pat@,
            replace_all(s@, pat@, rep@) == out@ + s@.subrange(last as int, i as int) + replace_all(
                s@.subrange(i as int, n as int),
                pat@,
                rep@,
            ),
        decreases n - i,
    {
        let ghost tail = s@.subrange(i as int, n as int);
        if m <= n - i && span_is(&v, i, i + m, pv.as_slice()) {
            assert(tail.subrange(0, m as int) =~= v@.subrange(i as int, i + m));
            assert(tail.subrange(m as int, tail.len() as int) =~= s@.subrange(
                i + m,
                n as int,
            ));
            let piece = s.substring_char(last, i);
            out.append(piece);
            out.append(rep);
            i = i + m;
            last = i;
            assert(s@.subrange(last as int, i as int) =~= Seq::<char>::empty());
            assert(out@ + s@.subrange(last as int, i as int) =~= out@);
        } else {
            assert(m <= n - i ==> tail.subrange(0, m as int) =~= v@.subrange(i as int, i + m));
            assert(tail.drop_first() =~= s@.subrange(i + 1, n as int));
            assert(s@.subrange(last as int, i + 1) =~= s@.subrange(last as int, i as int).push(
                s@[i as int],
            ));
            i = i + 1;
        }
    }
    assert(s@.subrange(n as int, n as int) =~= Seq::<char>::empty());
    let piece = s.substring_char(last, n);
    out.append(piece);
    assert(out@ =~= out@ + Seq::<char>::empty());
    out
}

} // verus!
