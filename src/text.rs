//! Character-sequence helpers shared by the naming and path rules.
use vstd::prelude::*;

verus! {

broadcast use vstd::string::axiom_spec_iter, vstd::string::next_postcondition;

/// The characters of `s`, in order.
pub fn to_chars(s: &str) -> (r: Vec<char>)
    ensures
        r@ == s@,
{
    let mut out: Vec<char> = Vec::new();
    for c in iter: s.chars()
        invariant
            out.len() == iter.index(),
            forall|i: int| 0 <= i < out.len() ==> out@[i] == iter.seq()[i],
    {
        out.push(c);
    }
    assert(out@ =~= s@);
    out
}

/// `t` occurs in `s` starting at position `i`.
pub open spec fn occurs_at(s: Seq<char>, t: Seq<char>, i: int) -> bool {
    0 <= i && i + t.len() <= s.len() && s.subrange(i, i + t.len()) == t
}

/// `t` occurs somewhere in `s`.
pub open spec fn has_sub(s: Seq<char>, t: Seq<char>) -> bool {
    exists|i: int| occurs_at(s, t, i)
}

/// Every occurrence of the non-empty `t` in `s`, taken from the left without
/// overlap, replaced by `r`.
pub open spec fn replaced(s: Seq<char>, t: Seq<char>, r: Seq<char>) -> Seq<char>
    decreases s.len(),
{
    if t.len() == 0 || s.len() < t.len() {
        s
    } else if s.subrange(0, t.len() as int) == t {
        r + replaced(s.subrange(t.len() as int, s.len() as int), t, r)
    } else {
        seq![s[0]] + replaced(s.subrange(1, s.len() as int), t, r)
    }
}

/// Name for the result of `str::to_lowercase`.
pub uninterp spec fn lower_of(s: Seq<char>) -> Seq<char>;

/// Relies on `str::to_lowercase`: the lower-case form depends on the
/// characters alone.
#[verifier::external_body]
pub(crate) fn lowercase(s: &str) -> (r: String)
    ensures
        r@ == lower_of(s@),
{
    s.to_lowercase()
}

/// Relies on `String: FromIterator<&char>`: the string holds the characters
/// in order.
#[verifier::external_body]
pub(crate) fn string_from_chars(v: &Vec<char>) -> (r: String)
    ensures
        r@ == v@,
{
    v.iter().collect()
}

/// Whether `t` occurs in `s` at position `i`.
fn matches_at(s: &Vec<char>, t: &Vec<char>, i: usize) -> (r: bool)
    requires
        i + t.len() <= s.len(),
    ensures
        r == occurs_at(s@, t@, i as int),
{
    let mut k: usize = 0;
    while k < t.len()
        invariant
            i + t.len() <= s.len(),
            k <= t.len(),
            forall|j: int| 0 <= j < k ==> s@[i + j] == t@[j],
        decreases t.len() - k,
    {
        if s[i + k] != t[k] {
            assert(s@.subrange(i as int, i + t.len())[k as int] != t@[k as int]);
            return false;
        }
        k = k + 1;
    }
    assert(s@.subrange(i as int, i + t.len()) =~= t@);
    true
}

/// Whether `t` occurs in `s`, as `str::contains` answers.
pub fn str_contains(s: &str, t: &str) -> (r: bool)
    ensures
        r == has_sub(s@, t@),
{
    let sc = to_chars(s);
    let tc = to_chars(t);
    if tc.len() > sc.len() {
        assert forall|i: int| !occurs_at(s@, t@, i) by {}
        return false;
    }
    if tc.len() == 0 {
        assert(s@.subrange(0, 0) =~= t@);
        assert(occurs_at(s@, t@, 0));
        return true;
    }
    let last = sc.len() - tc.len();
    let mut i: usize = 0;
    while i < sc.len() && i <= last
        invariant
            sc@ == s@,
            tc@ == t@,
            last == sc.len() - tc.len(),
            i <= last + 1,
            forall|j: int| 0 <= j < i ==> !occurs_at(s@, t@, j),
        decreases last + 1 - i,
    {
        if matches_at(&sc, &tc, i) {
            return true;
        }
        i = i + 1;
    }
    assert forall|j: int| !occurs_at(s@, t@, j) by {
        if 0 <= j && j + t@.len() <= s@.len() {
            assert(j < i);
        }
    }
    false
}

/// Every occurrence of `t` in `s` replaced by `r`, as `str::replace` does
/// for a non-empty pattern.
pub fn str_replace(s: &str, t: &str, r: &str) -> (out: String)
    requires
        t@.len() > 0,
    ensures
        out@ == replaced(s@, t@, r@),
{
    let sc = to_chars(s);
    let tc = to_chars(t);
    let rc = to_chars(r);
    let mut buf: Vec<char> = Vec::new();
    let mut i: usize = 0;
    assert(s@.subrange(0, s@.len() as int) =~= s@);
    while i < sc.len()
        invariant
            sc@ == s@,
            tc@ == t@,
            rc@ == r@,
            tc.len() > 0,
            i <= sc.len(),
            buf@ + replaced(s@.subrange(i as int, s@.len() as int), t@, r@) == replaced(s@, t@, r@),
        decreases sc.len() - i,
    {
        let rest = Ghost(s@.subrange(i as int, s@.len() as int));
        if tc.len() <= sc.len() - i && matches_at(&sc, &tc, i) {
            assert(rest@.subrange(0, t@.len() as int) =~= t@);
            assert(rest@.subrange(t@.len() as int, rest@.len() as int) =~= s@.subrange(
                i + t@.len(),
                s@.len() as int,
            ));
            let mut k: usize = 0;
            let ghost before = buf@;
            while k < rc.len()
                invariant
                    k <= rc.len(),
                    buf@ == before + rc@.subrange(0, k as int),
                decreases rc.len() - k,
            {
                buf.push(rc[k]);
                k = k + 1;
                assert(buf@ =~= before + rc@.subrange(0, k as int));
            }
            assert(rc@.subrange(0, k as int) =~= r@);
            assert(buf@ + replaced(s@.subrange(i + tc.len(), s@.len() as int), t@, r@) =~= before
                + replaced(rest@, t@, r@));
            i = i + tc.len();
        } else {
            if tc.len() <= sc.len() - i {
                assert(rest@.subrange(0, t@.len() as int) =~= s@.subrange(i as int, i + t@.len()));
            }
            assert(rest@.subrange(1, rest@.len() as int) =~= s@.subrange(i + 1, s@.len() as int));
            let ghost before = buf@;
            buf.push(sc[i]);
            assert(buf@ + replaced(s@.subrange(i + 1, s@.len() as int), t@, r@) =~= before
                + replaced(rest@, t@, r@));
            i = i + 1;
        }
    }
    assert(s@.subrange(i as int, s@.len() as int) =~= Seq::<char>::empty());
    assert(buf@ =~= replaced(s@, t@, r@));
    string_from_chars(&buf)
}

/// Whether `a` and `b` hold the same characters.
pub fn str_equal(a: &str, b: &str) -> (r: bool)
    ensures
        r == (a@ == b@),
{
    let ac = to_chars(a);
    let bc = to_chars(b);
    if ac.len() != bc.len() {
        return false;
    }
    let same = matches_at(&ac, &bc, 0);
    assert(ac@.subrange(0, ac@.len() as int) =~= ac@);
    same
}

} // verus!
