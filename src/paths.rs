//! Path rules: directory containment and file extensions.
use vstd::prelude::*;
use crate::text::{lower_of, lowercase, str_equal, string_from_chars, to_chars};

verus! {

/// A path separator: backslash or slash.
pub open spec fn is_sep(c: char) -> bool {
    c == '\\' || c == '/'
}

/// The components of a path: the pieces between separators, either kind,
/// with empty pieces left out.
pub open spec fn components(p: Seq<char>) -> Seq<Seq<char>>
    decreases p.len(),
{
    if p.len() == 0 {
        Seq::empty()
    } else {
        let prev = components(p.drop_last());
        let c = p.last();
        if is_sep(c) {
            prev
        } else if p.len() == 1 || is_sep(p[p.len() - 2]) {
            prev.push(seq![c])
        } else {
            prev.update(prev.len() - 1, prev.last().push(c))
        }
    }
}

/// `p` lies under directory `d`: `d` has components, and they are the
/// first components of `p`.
pub open spec fn under_dir(p: Seq<char>, d: Seq<char>) -> bool {
    let pc = components(p);
    let dc = components(d);
    0 < dc.len() <= pc.len() && pc.subrange(0, dc.len() as int) == dc
}

proof fn lemma_components_last(p: Seq<char>)
    requires
        p.len() > 0,
        !is_sep(p.last()),
    ensures
        components(p).len() > 0,
    decreases p.len(),
{
    if p.len() > 1 && !is_sep(p[p.len() - 2]) {
        assert(p.drop_last().last() == p[p.len() - 2]);
        lemma_components_last(p.drop_last());
    }
}

/// Position of the last separator among the first `n` characters, or -1.
pub open spec fn last_sep_before(p: Seq<char>, n: int) -> int
    decreases n,
{
    if n <= 0 || n > p.len() {
        -1
    } else if is_sep(p[n - 1]) {
        n - 1
    } else {
        last_sep_before(p, n - 1)
    }
}

/// Position of the last dot among the first `n` characters, or -1.
pub open spec fn last_dot_before(f: Seq<char>, n: int) -> int
    decreases n,
{
    if n <= 0 || n > f.len() {
        -1
    } else if f[n - 1] == '.' {
        n - 1
    } else {
        last_dot_before(f, n - 1)
    }
}

/// The text after the last separator.
pub open spec fn file_name(p: Seq<char>) -> Seq<char> {
    p.subrange(last_sep_before(p, p.len() as int) + 1, p.len() as int)
}

/// The text after the last dot of the file name, where that dot is not its
/// first character.
pub open spec fn extension(p: Seq<char>) -> Option<Seq<char>> {
    let f = file_name(p);
    let k = last_dot_before(f, f.len() as int);
    if k <= 0 {
        None
    } else {
        Some(f.subrange(k + 1, f.len() as int))
    }
}

/// A lower-cased extension of an installable font file.
pub open spec fn is_font_ext(ext_lower: Seq<char>) -> bool {
    ext_lower == "ttf"@ || ext_lower == "otf"@
}

/// `p` has an extension whose lower-case form is that of a font file.
pub open spec fn has_font_ext(p: Seq<char>) -> bool {
    extension(p) is Some && is_font_ext(lower_of(extension(p)->0))
}

proof fn lemma_last_before_bounds(p: Seq<char>, n: int)
    ensures
        -1 <= last_sep_before(p, n) < (if 0 < n <= p.len() { n } else { 0 }),
        -1 <= last_dot_before(p, n) < (if 0 < n <= p.len() { n } else { 0 }),
    decreases n,
{
    if n > 0 && n <= p.len() {
        lemma_last_before_bounds(p, n - 1);
    }
}

/// The components of a path, in order.
fn path_components(p: &Vec<char>) -> (r: Vec<Vec<char>>)
    ensures
        r@.map_values(|v: Vec<char>| v@) == components(p@),
{
    let mut out: Vec<Vec<char>> = Vec::new();
    let mut i: usize = 0;
    assert(p@.subrange(0, 0) =~= Seq::<char>::empty());
    assert(out@.map_values(|v: Vec<char>| v@) =~= Seq::<Seq<char>>::empty());
    while i < p.len()
        invariant
            i <= p.len(),
            out@.map_values(|v: Vec<char>| v@) == components(p@.subrange(0, i as int)),
        decreases p.len() - i,
    {
        let ghost q = p@.subrange(0, i + 1);
        let ghost prev = out@.map_values(|v: Vec<char>| v@);
        assert(q.drop_last() =~= p@.subrange(0, i as int));
        assert(q.last() == p@[i as int]);
        let c = p[i];
        if c == '\\' || c == '/' {
        } else if i == 0 || p[i - 1] == '\\' || p[i - 1] == '/' {
            assert(i > 0 ==> q[q.len() - 2] == p@[i - 1]);
            let mut piece: Vec<char> = Vec::new();
            piece.push(c);
            assert(piece@ =~= seq![c]);
            out.push(piece);
            assert(out@.map_values(|v: Vec<char>| v@) =~= prev.push(seq![c]));
        } else {
            assert(q[q.len() - 2] == p@[i - 1]);
            proof {
                lemma_components_last(p@.subrange(0, i as int));
            }
            assert(p@.subrange(0, i as int).last() == p@[i - 1]);
            let mut last = out.pop().unwrap();
            let ghost before = last@;
            last.push(c);
            out.push(last);
            assert(out@.map_values(|v: Vec<char>| v@) =~= prev.update(prev.len() - 1, before.push(c)));
        }
        i = i + 1;
    }
    assert(p@.subrange(0, p@.len() as int) =~= p@);
    out
}

/// Whether two character sequences are equal.
fn chars_equal(a: &Vec<char>, b: &Vec<char>) -> (r: bool)
    ensures
        r == (a@ == b@),
{
    if a.len() != b.len() {
        return false;
    }
    let mut i: usize = 0;
    while i < a.len()
        invariant
            a.len() == b.len(),
            i <= a.len(),
            forall|j: int| 0 <= j < i ==> a@[j] == b@[j],
        decreases a.len() - i,
    {
        if a[i] != b[i] {
            return false;
        }
        i = i + 1;
    }
    assert(a@ =~= b@);
    true
}

/// Whether path `p` lies under directory `d`, component by component.
pub fn path_under(p: &str, d: &str) -> (r: bool)
    ensures
        r == under_dir(p@, d@),
{
    let pc = path_components(&to_chars(p));
    let dc = path_components(&to_chars(d));
    let ghost pv = pc@.map_values(|v: Vec<char>| v@);
    let ghost dv = dc@.map_values(|v: Vec<char>| v@);
    assert(pv.len() == pc@.len() && dv.len() == dc@.len());
    if dc.len() == 0 || dc.len() > pc.len() {
        return false;
    }
    let mut i: usize = 0;
    while i < dc.len()
        invariant
            pv == pc@.map_values(|v: Vec<char>| v@),
            dv == dc@.map_values(|v: Vec<char>| v@),
            pv == components(p@),
            dv == components(d@),
            dc.len() <= pc.len(),
            i <= dc.len(),
            forall|j: int| 0 <= j < i ==> pv[j] == dv[j],
        decreases dc.len() - i,
    {
        assert(pv[i as int] == pc@[i as int]@ && dv[i as int] == dc@[i as int]@);
        if !chars_equal(&pc[i], &dc[i]) {
            assert(pv.subrange(0, dv.len() as int)[i as int] != dv[i as int]);
            return false;
        }
        i = i + 1;
    }
    assert(pv.subrange(0, dv.len() as int) =~= dv);
    true
}

/// Start of the file name: one past the last separator.
fn file_name_start(pc: &Vec<char>) -> (r: usize)
    ensures
        r == last_sep_before(pc@, pc@.len() as int) + 1,
        r <= pc.len(),
{
    let mut n: usize = pc.len();
    proof {
        lemma_last_before_bounds(pc@, pc@.len() as int);
    }
    while n > 0
        invariant
            n <= pc.len(),
            last_sep_before(pc@, pc@.len() as int) == last_sep_before(pc@, n as int),
        decreases n,
    {
        if pc[n - 1] == '\\' || pc[n - 1] == '/' {
            return n;
        }
        n = n - 1;
    }
    0
}

/// The extension of `path`, as `Path::extension` reads it from the text
/// after the last separator.
pub fn path_extension(path: &str) -> (r: Option<String>)
    ensures
        match r {
            Some(e) => extension(path@) == Some(e@),
            None => extension(path@) is None,
        },
{
    let pc = to_chars(path);
    let start = file_name_start(&pc);
    let ghost f = file_name(path@);
    let mut n: usize = pc.len();
    proof {
        lemma_last_before_bounds(f, f.len() as int);
    }
    while n > start
        invariant
            pc@ == path@,
            start <= n <= pc.len(),
            start == last_sep_before(path@, path@.len() as int) + 1,
            f == path@.subrange(start as int, path@.len() as int),
            last_dot_before(f, f.len() as int) == last_dot_before(f, n - start),
        decreases n,
    {
        if pc[n - 1] == '.' {
            assert(f[n - 1 - start] == '.');
            if n - 1 == start {
                return None;
            }
            let mut ext: Vec<char> = Vec::new();
            let mut k: usize = n;
            while k < pc.len()
                invariant
                    pc@ == path@,
                    n <= k <= pc.len(),
                    ext@ == pc@.subrange(n as int, k as int),
                decreases pc.len() - k,
            {
                ext.push(pc[k]);
                k = k + 1;
                assert(ext@ =~= pc@.subrange(n as int, k as int));
            }
            assert(f.subrange(n - start, f.len() as int) =~= ext@);
            return Some(string_from_chars(&ext));
        }
        n = n - 1;
    }
    None
}

/// Whether a lower-cased extension is that of an installable font file.
pub fn font_extension_lowered(ext_lower: &str) -> (r: bool)
    ensures
        r == is_font_ext(ext_lower@),
{
    str_equal(ext_lower, "ttf") || str_equal(ext_lower, "otf")
}

/// Whether `path` names a TrueType or OpenType file, by its extension in
/// any letter case.
pub fn has_font_extension(path: &str) -> (r: bool)
    ensures
        r == has_font_ext(path@),
{
    match path_extension(path) {
        None => false,
        Some(e) => {
            let lowered = lowercase(e.as_str());
            font_extension_lowered(lowered.as_str())
        },
    }
}

} // verus!
