//! Ordering of names by character code, as `str`'s `Ord` orders them.
use vstd::prelude::*;
use crate::text::to_chars;

verus! {

/// `a` comes strictly before `b`: at the first differing character the code
/// of `a`'s is smaller, or `a` is a proper prefix of `b`.
pub open spec fn str_lt(a: Seq<char>, b: Seq<char>) -> bool
    decreases a.len(),
{
    if a.len() == 0 {
        b.len() > 0
    } else if b.len() == 0 {
        false
    } else if a[0] != b[0] {
        (a[0] as int) < (b[0] as int)
    } else {
        str_lt(a.drop_first(), b.drop_first())
    }
}

/// Two names are equal or one comes before the other.
pub proof fn lemma_str_lt_total(a: Seq<char>, b: Seq<char>)
    ensures
        a == b || str_lt(a, b) || str_lt(b, a),
    decreases a.len(),
{
    if a.len() == 0 || b.len() == 0 {
        if a.len() == 0 && b.len() == 0 {
            assert(a =~= b);
        }
    } else if a[0] != b[0] {
        assert((a[0] as int) != (b[0] as int));
    } else {
        let a1 = a.drop_first();
        let b1 = b.drop_first();
        lemma_str_lt_total(a1, b1);
        if a1 == b1 {
            assert(a.len() == a1.len() + 1);
            assert(b.len() == b1.len() + 1);
            assert forall|i: int| 0 <= i < a.len() implies a[i] == b[i] by {
                if i > 0 {
                    assert(a[i] == a1[i - 1]);
                    assert(b[i] == b1[i - 1]);
                }
            }
            assert(a =~= b);
        }
    }
}

/// No name comes before itself, and of two names at most one comes first.
pub proof fn lemma_str_lt_asym(a: Seq<char>, b: Seq<char>)
    ensures
        str_lt(a, b) ==> !str_lt(b, a),
        !str_lt(a, a),
    decreases a.len(),
{
    if a.len() > 0 && b.len() > 0 && a[0] == b[0] {
        lemma_str_lt_asym(a.drop_first(), b.drop_first());
    }
    if a.len() > 0 {
        lemma_str_lt_asym(a.drop_first(), a.drop_first());
    }
}

/// The order is transitive.
pub proof fn lemma_str_lt_trans(a: Seq<char>, b: Seq<char>, c: Seq<char>)
    requires
        str_lt(a, b),
        str_lt(b, c),
    ensures
        str_lt(a, c),
    decreases a.len(),
{
    if a.len() > 0 && b.len() > 0 && c.len() > 0 && a[0] == b[0] && b[0] == c[0] {
        lemma_str_lt_trans(a.drop_first(), b.drop_first(), c.drop_first());
    }
}

/// Whether `a` comes strictly before `b`.
pub fn str_less(a: &str, b: &str) -> (r: bool)
    ensures
        r == str_lt(a@, b@),
{
    let ac = to_chars(a);
    let bc = to_chars(b);
    let mut i: usize = 0;
    assert(a@.subrange(0, a@.len() as int) =~= a@);
    assert(b@.subrange(0, b@.len() as int) =~= b@);
    while i < ac.len() && i < bc.len()
        invariant
            ac@ == a@,
            bc@ == b@,
            i <= ac.len(),
            i <= bc.len(),
            str_lt(a@, b@) == str_lt(
                a@.subrange(i as int, a@.len() as int),
                b@.subrange(i as int, b@.len() as int),
            ),
        decreases ac.len() - i,
    {
        if ac[i] != bc[i] {
            return ac[i] < bc[i];
        }
        assert(a@.subrange(i as int, a@.len() as int).drop_first() =~= a@.subrange(
            i + 1,
            a@.len() as int,
        ));
        assert(b@.subrange(i as int, b@.len() as int).drop_first() =~= b@.subrange(
            i + 1,
            b@.len() as int,
        ));
        i = i + 1;
    }
    i < bc.len()
}

} // verus!
