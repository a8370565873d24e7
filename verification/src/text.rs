//! Character-level helpers on which the report builders rest.

use vstd::prelude::*;
use vstd::std_specs::iter::IteratorSpec;

verus! {

broadcast use vstd::string::group_string_axioms;

/// The characters of `s`, in order.
pub fn chars_of(s: &str) -> (r: Vec<char>)
    ensures
        r@ == s@,
{
    let mut out: Vec<char> = Vec::new();
    let mut it = s.chars();
    loop
        invariant
            it.obeys_prophetic_iter_laws(),
            it.decrease() is Some,
            out@ + it.remaining() == s@,
        ensures
            out@ == s@,
        decreases it.decrease()->0,
    {
        match it.next() {
            Some(c) => {
                out.push(c);
            },
            None => {
                assert(out@ =~= s@);
                break ;
            },
        }
    }
    out
}

/// `String::push`: appends the character `c` to `s`. Trusted: std documents
/// that `push` appends the given char to the end of the string.
#[verifier::external_body]
fn push_char(s: &mut String, c: char)
    ensures
        final(s)@ == old(s)@.push(c),
{
    s.push(c);
}

/// The string made of the characters of `v`, in order.
pub(crate) fn string_of(v: &Vec<char>) -> (r: String)
    ensures
        r@ == v@,
{
    let mut out = String::new();
    let mut i: usize = 0;
    while i < v.len()
        invariant
            i <= v@.len(),
            out@ == v@.take(i as int),
        decreases v@.len() - i,
    {
        push_char(&mut out, v[i]);
        i = i + 1;
        assert(out@ =~= v@.take(i as int));
    }
    assert(v@.take(v@.len() as int) =~= v@);
    out
}

/// Appends the characters of `s` to `out`.
pub fn push_str(out: &mut Vec<char>, s: &str)
    ensures
        final(out)@ == old(out)@ + s@,
{
    let mut more = chars_of(s);
    out.append(&mut more);
}

/// Whether `pat` stands in `s` starting at index `i`.
pub open spec fn occurs_at(s: Seq<char>, pat: Seq<char>, i: int) -> bool {
    0 <= i && i + pat.len() <= s.len() && s.subrange(i, i + pat.len()) == pat
}

/// `s` with every occurrence of the non-empty `pat` replaced by `rep`,
/// occurrences taken from left to right without overlap, as `str::replace` does.
pub open spec fn replace_all(s: Seq<char>, pat: Seq<char>, rep: Seq<char>) -> Seq<char>
    decreases s.len(),
{
    if pat.len() == 0 || s.len() < pat.len() {
        s
    } else if s.take(pat.len() as int) == pat {
        rep + replace_all(s.skip(pat.len() as int), pat, rep)
    } else {
        seq![s[0]] + replace_all(s.skip(1), pat, rep)
    }
}

/// Whether `pat` stands in `s` at index `i`.
fn occurs_at_exec(s: &Vec<char>, pat: &Vec<char>, i: usize) -> (b: bool)
    requires
        i + pat@.len() <= s@.len(),
    ensures
        b == occurs_at(s@, pat@, i as int),
{
    let m = pat.len();
    let mut j: usize = 0;
    while j < m
        invariant
            j <= m,
            m == pat@.len(),
            i + m <= s.len(),
            forall|k: int| 0 <= k < j ==> s@[i + k] == pat@[k],
        decreases m - j,
    {
        if s[i + j] != pat[j] {
            assert(s@.subrange(i as int, i + m)[j as int] != pat@[j as int]);
            return false;
        }
        j = j + 1;
    }
    assert(s@.subrange(i as int, i + m) =~= pat@);
    true
}

/// `s` with every occurrence of `pat` replaced by `rep`, from left to right.
pub fn replace_all_chars(s: &Vec<char>, pat: &Vec<char>, rep: &Vec<char>) -> (r: Vec<char>)
    requires
        pat@.len() > 0,
    ensures
        r@ == replace_all(s@, pat@, rep@),
{
    let mut out: Vec<char> = Vec::new();
    let n = s.len();
    let m = pat.len();
    let mut i: usize = 0;
    assert(s@.skip(0) =~= s@);
    while i < n
        invariant
            i <= n,
            n == s@.len(),
            m == pat@.len(),
            m > 0,
            out@ + replace_all(s@.skip(i as int), pat@, rep@) == replace_all(s@, pat@, rep@),
        decreases n - i,
    {
        let ghost rest = s@.skip(i as int);
        if n - i >= m && occurs_at_exec(s, pat, i) {
            assert(rest.take(m as int) =~= s@.subrange(i as int, i + m));
            assert(rest.skip(m as int) =~= s@.skip(i + m));
            let mut more = rep.clone();
            out.append(&mut more);
            i = i + m;
            assert(out@ + replace_all(s@.skip(i as int), pat@, rep@) =~= replace_all(
                s@,
                pat@,
                rep@,
            ));
        } else {
            assert(rest.skip(1) =~= s@.skip(i + 1));
            if n - i >= m {
                assert(rest.take(m as int) =~= s@.subrange(i as int, i + m));
            } else {
                assert(rest =~= seq![s@[i as int]] + s@.skip(i + 1));
                assert(replace_all(s@.skip(i + 1), pat@, rep@) == s@.skip(i + 1));
            }
            out.push(s[i]);
            i = i + 1;
            assert(out@ + replace_all(s@.skip(i as int), pat@, rep@) =~= replace_all(
                s@,
                pat@,
                rep@,
            ));
        }
    }
    assert(replace_all(s@.skip(n as int), pat@, rep@) =~= Seq::<char>::empty());
    assert(out@ + Seq::<char>::empty() =~= out@);
    out
}

/// Replacing a pattern that occurs nowhere in `s` leaves `s` as it is.
pub proof fn lemma_replace_absent(s: Seq<char>, pat: Seq<char>, rep: Seq<char>)
    requires
        forall|i: int| !occurs_at(s, pat, i),
    ensures
        replace_all(s, pat, rep) == s,
    decreases s.len(),
{
    if pat.len() == 0 || s.len() < pat.len() {
    } else {
        assert(s.take(pat.len() as int) =~= s.subrange(0, pat.len() as int));
        assert(!occurs_at(s, pat, 0));
        let t = s.skip(1);
        assert forall|i: int| !occurs_at(t, pat, i) by {
            if occurs_at(t, pat, i) {
                assert(s.subrange(i + 1, i + 1 + pat.len()) =~= t.subrange(i, i + pat.len()));
                assert(occurs_at(s, pat, i + 1));
            }
        }
        lemma_replace_absent(t, pat, rep);
        assert(s =~= seq![s[0]] + t);
    }
}

/// Every character of a replacement's result comes from the input or from the replacement.
pub proof fn lemma_replace_chars_from(s: Seq<char>, pat: Seq<char>, rep: Seq<char>)
    ensures
        forall|i: int|
            0 <= i < replace_all(s, pat, rep).len() ==> s.contains(
                #[trigger] replace_all(s, pat, rep)[i],
            ) || rep.contains(replace_all(s, pat, rep)[i]),
    decreases s.len(),
{
    let r = replace_all(s, pat, rep);
    if pat.len() == 0 || s.len() < pat.len() {
        assert forall|i: int| 0 <= i < r.len() implies s.contains(#[trigger] r[i]) || rep.contains(
            r[i],
        ) by {
            assert(s[i] == r[i]);
        }
    } else if s.take(pat.len() as int) == pat {
        let u = s.skip(pat.len() as int);
        lemma_replace_chars_from(u, pat, rep);
        let t = replace_all(u, pat, rep);
        assert forall|i: int| 0 <= i < r.len() implies s.contains(#[trigger] r[i]) || rep.contains(
            r[i],
        ) by {
            if i < rep.len() {
                assert(rep[i] == r[i]);
            } else {
                assert(t[i - rep.len()] == r[i]);
                if u.contains(r[i]) {
                    let k = choose|k: int| 0 <= k < u.len() && u[k] == r[i];
                    assert(s[k + pat.len()] == r[i]);
                }
            }
        }
    } else {
        let u = s.skip(1);
        lemma_replace_chars_from(u, pat, rep);
        let t = replace_all(u, pat, rep);
        assert forall|i: int| 0 <= i < r.len() implies s.contains(#[trigger] r[i]) || rep.contains(
            r[i],
        ) by {
            if i == 0 {
                assert(s[0] == r[i]);
            } else {
                assert(t[i - 1] == r[i]);
                if u.contains(r[i]) {
                    let k = choose|k: int| 0 <= k < u.len() && u[k] == r[i];
                    assert(s[k + 1] == r[i]);
                }
            }
        }
    }
}

/// After replacing the one-character pattern `[a]`, the character `a`
/// remains only where the replacement itself holds it.
pub proof fn lemma_replace_char_gone(s: Seq<char>, a: char, rep: Seq<char>)
    ensures
        forall|i: int|
            0 <= i < replace_all(s, seq![a], rep).len() && #[trigger] replace_all(
                s,
                seq![a],
                rep,
            )[i] == a ==> rep.contains(a),
    decreases s.len(),
{
    let pat = seq![a];
    if s.len() < 1 {
    } else {
        let r = replace_all(s, pat, rep);
        if s.take(1) == pat {
            lemma_replace_char_gone(s.skip(1), a, rep);
            let t = replace_all(s.skip(1), pat, rep);
            assert(r == rep + t);
            assert forall|i: int| 0 <= i < r.len() && r[i] == a implies rep.contains(a) by {
                if i < rep.len() {
                    assert(rep[i] == a);
                } else {
                    assert(t[i - rep.len()] == a);
                }
            }
        } else {
            assert(s.take(1) =~= seq![s[0]]);
            lemma_replace_char_gone(s.skip(1), a, rep);
            let t = replace_all(s.skip(1), pat, rep);
            assert(r == seq![s[0]] + t);
            assert forall|i: int| 0 <= i < r.len() && r[i] == a implies rep.contains(a) by {
                if i > 0 {
                    assert(t[i - 1] == a);
                }
            }
        }
    }
}

/// Replacing `pat` by `rep` keeps, in order, every character that `keep`
/// selects, when neither `pat` nor `rep` holds such a character.
pub proof fn lemma_replace_keeps_selected(
    s: Seq<char>,
    pat: Seq<char>,
    rep: Seq<char>,
    keep: spec_fn(char) -> bool,
)
    requires
        pat.filter(keep) =~= Seq::<char>::empty(),
        rep.filter(keep) =~= Seq::<char>::empty(),
    ensures
        replace_all(s, pat, rep).filter(keep) == s.filter(keep),
    decreases s.len(),
{
    let r = replace_all(s, pat, rep);
    if pat.len() == 0 || s.len() < pat.len() {
    } else if s.take(pat.len() as int) == pat {
        let u = s.skip(pat.len() as int);
        lemma_replace_keeps_selected(u, pat, rep, keep);
        let t = replace_all(u, pat, rep);
        assert(r == rep + t);
        Seq::filter_distributes_over_add(rep, t, keep);
        assert(s =~= pat + u);
        Seq::filter_distributes_over_add(pat, u, keep);
        assert(Seq::<char>::empty() + u.filter(keep) =~= u.filter(keep));
    } else {
        let u = s.skip(1);
        lemma_replace_keeps_selected(u, pat, rep, keep);
        let t = replace_all(u, pat, rep);
        assert(r == seq![s[0]] + t);
        Seq::filter_distributes_over_add(seq![s[0]], t, keep);
        assert(s =~= seq![s[0]] + u);
        Seq::filter_distributes_over_add(seq![s[0]], u, keep);
    }
}

/// Where no occurrence of `pat` starts inside `x`, replacing in `x + y` leaves
/// `x` as it is and replaces in `y`.
pub proof fn lemma_replace_after_clean_prefix(
    x: Seq<char>,
    y: Seq<char>,
    pat: Seq<char>,
    rep: Seq<char>,
)
    requires
        pat.len() > 0,
        forall|i: int| 0 <= i < x.len() ==> !occurs_at(x + y, pat, i),
    ensures
        replace_all(x + y, pat, rep) == x + replace_all(y, pat, rep),
    decreases x.len(),
{
    let s = x + y;
    if x.len() == 0 {
        assert(s =~= y);
        assert(x + replace_all(y, pat, rep) =~= replace_all(y, pat, rep));
    } else if s.len() < pat.len() {
        assert(y.len() < pat.len());
    } else {
        assert(!occurs_at(s, pat, 0));
        assert(s.take(pat.len() as int) =~= s.subrange(0, pat.len() as int));
        let x1 = x.skip(1);
        assert(s.skip(1) =~= x1 + y);
        assert forall|i: int| 0 <= i < x1.len() implies !occurs_at(x1 + y, pat, i) by {
            assert(!occurs_at(s, pat, i + 1));
            if occurs_at(x1 + y, pat, i) {
                assert(s.subrange(i + 1, i + 1 + pat.len()) =~= (x1 + y).subrange(i, i + pat.len()));
            }
        }
        lemma_replace_after_clean_prefix(x1, y, pat, rep);
        assert(x =~= seq![x[0]] + x1);
    }
}

} // verus!
