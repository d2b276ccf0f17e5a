//! Grouping of resolved variants into families, sorted for display.
use vstd::prelude::*;
use vstd::multiset::Multiset;
use crate::fonts::{FontFamily, FontVariant, ListFontsResult};
use crate::order::{lemma_str_lt_asym, lemma_str_lt_total, lemma_str_lt_trans, str_less, str_lt};
use crate::text::str_equal;

verus! {

/// `a` sorts strictly before `b`: lighter first, then by style name.
pub open spec fn variant_before(a: FontVariant, b: FontVariant) -> bool {
    a.weight < b.weight || (a.weight == b.weight && str_lt(a.style@, b.style@))
}

/// Each variant sorts no earlier than the one before it.
pub open spec fn variants_sorted(vs: Seq<FontVariant>) -> bool {
    forall|i: int| 0 < i < vs.len() ==> !variant_before(#[trigger] vs[i], vs[i - 1])
}

/// Family names strictly ascending, hence all distinct.
pub open spec fn families_sorted(fs: Seq<FontFamily>) -> bool {
    forall|i: int, j: int| 0 <= i < j < fs.len() ==> str_lt(#[trigger] fs[i].family@, #[trigger] fs[j].family@)
}

/// Every family is non-empty, holds only variants of its own name, and
/// keeps them sorted.
pub open spec fn families_well_formed(fs: Seq<FontFamily>) -> bool {
    &&& families_sorted(fs)
    &&& forall|a: int| 0 <= a < fs.len() ==> #[trigger] fs[a].variants@.len() > 0
    &&& forall|a: int| 0 <= a < fs.len() ==> variants_sorted(#[trigger] fs[a].variants@)
    &&& forall|a: int, b: int|
        0 <= a < fs.len() && 0 <= b < fs[a].variants@.len() ==> (#[trigger] fs[a].variants@[b]).family@
            == fs[a].family@
}

/// `v` is one of the variants of some family.
pub open spec fn holds_variant(fs: Seq<FontFamily>, v: FontVariant) -> bool {
    exists|a: int, b: int|
        0 <= a < fs.len() && 0 <= b < fs[a].variants@.len() && #[trigger] fs[a].variants@[b] == v
}

/// Number of variants over all families.
pub open spec fn variant_count(fs: Seq<FontFamily>) -> nat
    decreases fs.len(),
{
    if fs.len() == 0 {
        0
    } else {
        fs[0].variants@.len() + variant_count(fs.drop_first())
    }
}

/// All variants over all families, as a multiset.
pub open spec fn all_variants(fs: Seq<FontFamily>) -> Multiset<FontVariant>
    decreases fs.len(),
{
    if fs.len() == 0 {
        Multiset::empty()
    } else {
        fs[0].variants@.to_multiset().add(all_variants(fs.drop_first()))
    }
}

proof fn lemma_all_update(fs: Seq<FontFamily>, p: int, f: FontFamily)
    requires
        0 <= p < fs.len(),
    ensures
        all_variants(fs.update(p, f)).add(fs[p].variants@.to_multiset()) =~= all_variants(fs).add(
            f.variants@.to_multiset(),
        ),
    decreases fs.len(),
{
    broadcast use vstd::multiset::group_multiset_axioms;

    let u = fs.update(p, f);
    assert(u.len() > 0);
    if p > 0 {
        lemma_all_update(fs.drop_first(), p - 1, f);
        assert(u.drop_first() =~= fs.drop_first().update(p - 1, f));
        assert(fs.drop_first()[p - 1] == fs[p]);
        assert(u[0] == fs[0]);
        assert(all_variants(fs) == fs[0].variants@.to_multiset().add(all_variants(fs.drop_first())));
        assert(all_variants(u) == u[0].variants@.to_multiset().add(all_variants(u.drop_first())));
        let a = all_variants(fs.drop_first().update(p - 1, f));
        let b = all_variants(fs.drop_first());
        assert forall|x: FontVariant|
            #[trigger] all_variants(u).add(fs[p].variants@.to_multiset()).count(x) == all_variants(fs).add(
                f.variants@.to_multiset(),
            ).count(x) by {
            assert(a.add(fs[p].variants@.to_multiset()).count(x) == b.add(f.variants@.to_multiset()).count(x));
        }
    } else {
        assert(u.drop_first() =~= fs.drop_first());
        assert(u[0] == f);
        assert(all_variants(fs) == fs[0].variants@.to_multiset().add(all_variants(fs.drop_first())));
        assert(all_variants(u) == f.variants@.to_multiset().add(all_variants(fs.drop_first())));
    }
}

proof fn lemma_all_insert(fs: Seq<FontFamily>, p: int, f: FontFamily)
    requires
        0 <= p <= fs.len(),
    ensures
        all_variants(fs.insert(p, f)) =~= all_variants(fs).add(f.variants@.to_multiset()),
    decreases fs.len(),
{
    broadcast use vstd::multiset::group_multiset_axioms;

    let u = fs.insert(p, f);
    assert(u.len() > 0);
    if p > 0 {
        lemma_all_insert(fs.drop_first(), p - 1, f);
        assert(u.drop_first() =~= fs.drop_first().insert(p - 1, f));
        assert(u[0] == fs[0]);
        assert(all_variants(u) == u[0].variants@.to_multiset().add(all_variants(u.drop_first())));
    } else {
        assert(u.drop_first() =~= fs);
        assert(u[0] == f);
        assert(all_variants(u) == f.variants@.to_multiset().add(all_variants(fs)));
    }
}

proof fn lemma_count_update(fs: Seq<FontFamily>, p: int, f: FontFamily)
    requires
        0 <= p < fs.len(),
    ensures
        variant_count(fs.update(p, f)) + fs[p].variants@.len() == variant_count(fs) + f.variants@.len(),
    decreases fs.len(),
{
    if p > 0 {
        lemma_count_update(fs.drop_first(), p - 1, f);
        assert(fs.update(p, f).drop_first() =~= fs.drop_first().update(p - 1, f));
    } else {
        assert(fs.update(p, f).drop_first() =~= fs.drop_first());
    }
}

proof fn lemma_count_insert(fs: Seq<FontFamily>, p: int, f: FontFamily)
    requires
        0 <= p <= fs.len(),
    ensures
        variant_count(fs.insert(p, f)) == variant_count(fs) + f.variants@.len(),
    decreases fs.len(),
{
    if p > 0 {
        lemma_count_insert(fs.drop_first(), p - 1, f);
        assert(fs.insert(p, f).drop_first() =~= fs.drop_first().insert(p - 1, f));
    } else {
        assert(fs.insert(p, f).drop_first() =~= fs);
    }
}

proof fn lemma_before_asym(a: FontVariant, b: FontVariant)
    ensures
        variant_before(a, b) ==> !variant_before(b, a),
{
    lemma_str_lt_asym(a.style@, b.style@);
}

/// Whether `a` sorts strictly before `b`.
fn variant_precedes(a: &FontVariant, b: &FontVariant) -> (r: bool)
    ensures
        r == variant_before(*a, *b),
{
    a.weight < b.weight || (a.weight == b.weight && str_less(a.style.as_str(), b.style.as_str()))
}

/// Inserts `v` before every variant that does not sort before it, keeping
/// the list sorted; returns the position.
fn insert_variant(vs: &mut Vec<FontVariant>, v: FontVariant) -> (k: usize)
    requires
        variants_sorted(old(vs)@),
    ensures
        k <= old(vs)@.len(),
        final(vs)@ == old(vs)@.insert(k as int, v),
        variants_sorted(final(vs)@),
{
    let mut k: usize = 0;
    while k < vs.len() && variant_precedes(&vs[k], &v)
        invariant
            k <= vs.len(),
            vs@ == old(vs)@,
            forall|j: int| 0 <= j < k ==> variant_before(#[trigger] vs@[j], v),
        decreases vs.len() - k,
    {
        k = k + 1;
    }
    let ghost before = vs@;
    let ghost w = v;
    vs.insert(k, v);
    proof {
        assert forall|i: int| 0 < i < vs@.len() implies !variant_before(#[trigger] vs@[i], vs@[i - 1]) by {
            if i == k {
                lemma_before_asym(before[i - 1], w);
            } else if i == k + 1 {
                assert(vs@[i] == before[k as int]);
            } else if i > k + 1 {
                assert(vs@[i] == before[i - 1]);
                assert(vs@[i - 1] == before[i - 2]);
            }
        }
    }
    k
}

/// Groups variants by family name: families sorted by name, variants of a
/// family sorted by weight then style name, with the family and variant
/// counts.
pub fn group_families(variants: Vec<FontVariant>) -> (r: ListFontsResult)
    ensures
        families_well_formed(r.families@),
        r.total_families == r.families@.len(),
        r.total_variants == variants@.len(),
        variant_count(r.families@) == variants@.len(),
        all_variants(r.families@) == variants@.to_multiset(),
        forall|j: int| 0 <= j < variants@.len() ==> holds_variant(r.families@, #[trigger] variants@[j]),
{
    let ghost input = variants@;
    let mut rest = variants;
    let mut fams: Vec<FontFamily> = Vec::new();
    let total = rest.len();
    proof {
        broadcast use vstd::seq_lib::group_to_multiset_ensures;
        broadcast use vstd::multiset::group_multiset_axioms;

        assert(input.subrange(input.len() as int, input.len() as int) =~= Seq::<FontVariant>::empty());
        assert(Seq::<FontVariant>::empty().to_multiset() =~= Multiset::empty());
        assert(rest@.len() == input.len());
    }
    while rest.len() > 0
        invariant
            rest@ == input.subrange(0, rest@.len() as int),
            total == input.len(),
            families_well_formed(fams@),
            variant_count(fams@) + rest@.len() == input.len(),
            all_variants(fams@) == input.subrange(rest@.len() as int, input.len() as int).to_multiset(),
            forall|j: int| rest@.len() <= j < input.len() ==> holds_variant(fams@, #[trigger] input[j]),
        decreases rest.len(),
    {
        let v = rest.pop().unwrap();
        let ghost w = v;
        let ghost n = rest@.len() as int;
        assert(w == input[n]);
        let mut p: usize = 0;
        while p < fams.len() && str_less(fams[p].family.as_str(), v.family.as_str())
            invariant
                p <= fams.len(),
                forall|j: int| 0 <= j < p ==> str_lt((#[trigger] fams@[j]).family@, v.family@),
            decreases fams.len() - p,
        {
            p = p + 1;
        }
        let ghost old_fams = fams@;
        proof {
            let tail = input.subrange(n + 1, input.len() as int);
            assert(tail.insert(0, w) =~= input.subrange(n, input.len() as int));
            vstd::seq_lib::to_multiset_insert(tail, 0, w);
        }
        if p < fams.len() && str_equal(fams[p].family.as_str(), v.family.as_str()) {
            let mut fam = fams.remove(p);
            let ghost old_vs = fam.variants@;
            let k = insert_variant(&mut fam.variants, v);
            fams.insert(p, fam);
            proof {
                assert(fams@ =~= old_fams.update(p as int, fam));
                lemma_count_update(old_fams, p as int, fam);
                lemma_all_update(old_fams, p as int, fam);
                vstd::seq_lib::to_multiset_insert(old_vs, k as int, w);
                broadcast use vstd::multiset::group_multiset_axioms;
                assert(old_fams[p as int].variants@ == old_vs);
                assert(fam.variants@.to_multiset() == old_vs.to_multiset().insert(w));
                let a_new = all_variants(fams@);
                let a_old = all_variants(old_fams);
                assert(a_new.add(old_vs.to_multiset()) == a_old.add(old_vs.to_multiset().insert(w)));
                assert forall|x: FontVariant| a_new.count(x) == a_old.insert(w).count(x) by {
                    assert(a_new.add(old_vs.to_multiset()).count(x) == a_old.add(
                        old_vs.to_multiset().insert(w),
                    ).count(x));
                }
                assert(all_variants(fams@) =~= all_variants(old_fams).insert(w));
                assert forall|j: int| n <= j < input.len() implies holds_variant(fams@, #[trigger] input[j]) by {
                    if j == n {
                        assert(fams@[p as int].variants@[k as int] == input[j]);
                    } else {
                        let (a, b) = choose|a: int, b: int|
                            0 <= a < old_fams.len() && 0 <= b < old_fams[a].variants@.len()
                                && #[trigger] old_fams[a].variants@[b] == input[j];
                        if a != p {
                            assert(fams@[a].variants@[b] == input[j]);
                        } else if b < k {
                            assert(fams@[a].variants@[b] == input[j]);
                        } else {
                            assert(fams@[a].variants@[b + 1] == input[j]);
                        }
                    }
                }
                assert forall|a: int, b: int|
                    0 <= a < fams@.len() && 0 <= b < fams@[a].variants@.len() implies (
                    #[trigger] fams@[a].variants@[b]).family@ == fams@[a].family@ by {
                    if a == p && b != k {
                        if b < k {
                            assert(fams@[a].variants@[b] == old_vs[b]);
                        } else {
                            assert(fams@[a].variants@[b] == old_vs[b - 1]);
                        }
                    }
                }
            }
        } else {
            let name = v.family.clone();
            let mut members: Vec<FontVariant> = Vec::new();
            members.push(v);
            let fam = FontFamily { family: name, variants: members };
            fams.insert(p, fam);
            proof {
                lemma_count_insert(old_fams, p as int, fam);
                lemma_all_insert(old_fams, p as int, fam);
                vstd::seq_lib::to_multiset_build(Seq::<FontVariant>::empty(), w);
                broadcast use vstd::multiset::group_multiset_axioms;
                broadcast use vstd::seq_lib::group_to_multiset_ensures;
                assert(fam.variants@ =~= Seq::<FontVariant>::empty().push(w));
                assert(Seq::<FontVariant>::empty().to_multiset() =~= Multiset::empty());
                assert(fam.variants@.to_multiset() =~= Multiset::empty().insert(w));
                assert(all_variants(fams@) =~= all_variants(old_fams).insert(w));
                if p < old_fams.len() {
                    lemma_str_lt_total(old_fams[p as int].family@, w.family@);
                }
                assert forall|i: int, j: int| 0 <= i < j < fams@.len() implies str_lt(
                    #[trigger] fams@[i].family@,
                    #[trigger] fams@[j].family@,
                ) by {
                    if j == p {
                        assert(fams@[i] == old_fams[i]);
                    } else if i == p {
                        assert(fams@[j] == old_fams[j - 1]);
                        if j - 1 > p {
                            lemma_str_lt_trans(w.family@, old_fams[p as int].family@, old_fams[j - 1].family@);
                        }
                    } else if i < p && j > p {
                        assert(fams@[i] == old_fams[i]);
                        assert(fams@[j] == old_fams[j - 1]);
                    } else if i > p {
                        assert(fams@[i] == old_fams[i - 1]);
                        assert(fams@[j] == old_fams[j - 1]);
                    } else {
                        assert(fams@[i] == old_fams[i]);
                        assert(fams@[j] == old_fams[j]);
                    }
                }
                assert forall|j: int| n <= j < input.len() implies holds_variant(fams@, #[trigger] input[j]) by {
                    if j == n {
                        assert(fams@[p as int].variants@[0] == input[j]);
                    } else {
                        let (a, b) = choose|a: int, b: int|
                            0 <= a < old_fams.len() && 0 <= b < old_fams[a].variants@.len()
                                && #[trigger] old_fams[a].variants@[b] == input[j];
                        if a < p {
                            assert(fams@[a].variants@[b] == input[j]);
                        } else {
                            assert(fams@[a + 1].variants@[b] == input[j]);
                        }
                    }
                }
                assert forall|a: int| 0 <= a < fams@.len() implies variants_sorted(#[trigger] fams@[a].variants@) by {
                    if a < p {
                        assert(fams@[a] == old_fams[a]);
                    } else if a > p {
                        assert(fams@[a] == old_fams[a - 1]);
                    }
                }
                assert forall|a: int, b: int|
                    0 <= a < fams@.len() && 0 <= b < fams@[a].variants@.len() implies (
                    #[trigger] fams@[a].variants@[b]).family@ == fams@[a].family@ by {
                    if a < p {
                        assert(fams@[a] == old_fams[a]);
                    } else if a > p {
                        assert(fams@[a] == old_fams[a - 1]);
                    }
                }
            }
        }
        assert(rest@ =~= input.subrange(0, rest@.len() as int));
    }
    assert(input.subrange(0, input.len() as int) =~= input);
    let total_families = fams.len();
    ListFontsResult { families: fams, total_families, total_variants: total }
}

/// In well-formed families a variant sits in exactly one family: two
/// places that hold it lie in the same family.
pub proof fn lemma_variant_in_one_family(fs: Seq<FontFamily>, v: FontVariant, a1: int, b1: int, a2: int, b2: int)
    requires
        families_well_formed(fs),
        0 <= a1 < fs.len(),
        0 <= b1 < fs[a1].variants@.len(),
        0 <= a2 < fs.len(),
        0 <= b2 < fs[a2].variants@.len(),
        fs[a1].variants@[b1] == v,
        fs[a2].variants@[b2] == v,
    ensures
        a1 == a2,
        fs[a1].family@ == v.family@,
{
    assert(fs[a1].variants@[b1].family@ == fs[a1].family@);
    assert(fs[a2].variants@[b2].family@ == fs[a2].family@);
    if a1 < a2 {
        assert(str_lt(fs[a1].family@, fs[a2].family@));
        lemma_str_lt_asym(v.family@, v.family@);
    } else if a2 < a1 {
        assert(str_lt(fs[a2].family@, fs[a1].family@));
        lemma_str_lt_asym(v.family@, v.family@);
    }
}

} // verus!
