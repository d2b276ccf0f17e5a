//! Display-name resolution from a face's name table.
use vstd::prelude::*;
use crate::text::{has_sub, lower_of, lowercase, occurs_at, replaced, str_contains, str_equal, str_replace};
use crate::weight::{is_regular, is_regular_weight, weight_label, weight_to_name};

verus! {

/// A name-table entry as plain values: name slot, language, whether the
/// encoding is Unicode, and the decoded text when it could be decoded.
pub type NameEntry = (u16, u16, bool, Option<Seq<char>>);

/// Name-table slots consulted by the resolver.
pub const FAMILY_ID: u16 = 1;
pub const SUBFAMILY_ID: u16 = 2;
pub const FULL_NAME_ID: u16 = 4;
pub const PREFERRED_FAMILY_ID: u16 = 16;
pub const PREFERRED_SUBFAMILY_ID: u16 = 17;

/// Languages preferred when several entries fill one slot.
pub const PRIMARY_LANGUAGE: u16 = 2052;
pub const SECONDARY_LANGUAGE: u16 = 1033;

/// One entry of a face's name table.
pub struct NameRecord {
    pub name_id: u16,
    pub language_id: u16,
    pub is_unicode: bool,
    pub text: Option<String>,
}

impl View for NameRecord {
    type V = NameEntry;

    open spec fn view(&self) -> NameEntry {
        (
            self.name_id,
            self.language_id,
            self.is_unicode,
            match self.text {
                Some(t) => Some(t@),
                None => None,
            },
        )
    }
}

impl NameRecord {
    pub fn new(name_id: u16, language_id: u16, is_unicode: bool, text: Option<String>) -> (r: Self)
        ensures
            r.name_id == name_id,
            r.language_id == language_id,
            r.is_unicode == is_unicode,
            r.text == text,
    {
        NameRecord { name_id, language_id, is_unicode, text }
    }
}

/// The entries of a whole table, as plain values.
pub open spec fn table_view(t: Seq<NameRecord>) -> Seq<NameEntry> {
    t.map_values(|r: NameRecord| r@)
}

/// Preference of an entry's language: primary 3, secondary 2, any other 1.
pub open spec fn language_score(language_id: u16) -> int {
    if language_id == PRIMARY_LANGUAGE {
        3
    } else if language_id == SECONDARY_LANGUAGE {
        2
    } else {
        1
    }
}

/// Best text for slot `id` among the first `n` entries, with its score
/// (0 when none): an entry replaces the current best only when it scores
/// strictly higher, so among equal scores the first one stays.
pub open spec fn best_upto(t: Seq<NameEntry>, id: u16, n: int) -> (Option<Seq<char>>, int)
    decreases n,
{
    if n <= 0 || n > t.len() {
        (None, 0)
    } else {
        let prev = best_upto(t, id, n - 1);
        let e = t[n - 1];
        if e.0 == id && e.2 && language_score(e.1) > prev.1 && e.3 is Some {
            (e.3, language_score(e.1))
        } else {
            prev
        }
    }
}

/// Best text for slot `id` in the whole table.
pub open spec fn best_name(t: Seq<NameEntry>, id: u16) -> Option<Seq<char>> {
    best_upto(t, id, t.len() as int).0
}

/// The texts of a family slot and a subfamily slot, when both are filled.
pub open spec fn name_pair(t: Seq<NameEntry>, family_id: u16, subfamily_id: u16) -> Option<(Seq<char>, Seq<char>)> {
    if best_name(t, family_id) is Some && best_name(t, subfamily_id) is Some {
        Some((best_name(t, family_id)->0, best_name(t, subfamily_id)->0))
    } else {
        None
    }
}

/// The family/subfamily pair a name is built from: the preferred pair
/// (16, 17) when both are filled, else the legacy pair (1, 2) when both are.
pub open spec fn chosen_pair(t: Seq<NameEntry>) -> Option<(Seq<char>, Seq<char>)> {
    if name_pair(t, PREFERRED_FAMILY_ID, PREFERRED_SUBFAMILY_ID) is Some {
        name_pair(t, PREFERRED_FAMILY_ID, PREFERRED_SUBFAMILY_ID)
    } else {
        name_pair(t, FAMILY_ID, SUBFAMILY_ID)
    }
}

/// A subfamily that says nothing beyond "regular".
pub open spec fn is_plain_subfamily(s_lower: Seq<char>) -> bool {
    s_lower == "regular"@ || s_lower == "normal"@
}

/// Family and subfamily joined into one name, given their lower-case forms.
pub open spec fn composed(
    f: Seq<char>,
    s: Seq<char>,
    w: u16,
    f_lower: Seq<char>,
    s_lower: Seq<char>,
) -> Seq<char> {
    if is_plain_subfamily(s_lower) && !is_regular(w) {
        f + " "@ + weight_label(w)
    } else if has_sub(s_lower, f_lower) {
        s
    } else {
        f + " "@ + s
    }
}

/// The name resolved from a name table (if the file could be read and
/// parsed) before the corrective pass.
pub open spec fn resolved_name(table: Option<Seq<NameEntry>>, ps: Seq<char>, w: u16) -> Seq<char> {
    match table {
        None => ps,
        Some(t) => {
            let pair = chosen_pair(t);
            if pair is Some {
                let (f, s) = pair->0;
                composed(f, s, w, lower_of(f), lower_of(s))
            } else if best_name(t, FULL_NAME_ID) is Some {
                best_name(t, FULL_NAME_ID)->0
            } else {
                ps
            }
        },
    }
}

/// One replacement round of the corrective pass: the name so far and
/// whether any round has replaced something.
pub open spec fn replace_round(acc: (Seq<char>, bool), target: Seq<char>, label: Seq<char>) -> (
    Seq<char>,
    bool,
) {
    if has_sub(acc.0, target) {
        (replaced(acc.0, target, label), true)
    } else {
        acc
    }
}

/// The four replacement rounds, in order.
pub open spec fn replace_rounds(name: Seq<char>, label: Seq<char>) -> (Seq<char>, bool) {
    replace_round(
        replace_round(
            replace_round(replace_round((name, false), "Normal"@, label), "Regular"@, label),
            "normal"@,
            label,
        ),
        "regular"@,
        label,
    )
}

/// The corrective pass, given the lower-case forms of the name and of the
/// weight label: for a non-regular weight, "Normal"/"Regular" become the
/// weight label, or the label is appended when neither occurs and the
/// name does not already carry it.
pub open spec fn corrected_name(
    name: Seq<char>,
    w: u16,
    name_lower: Seq<char>,
    label_lower: Seq<char>,
) -> Seq<char> {
    if is_regular(w) {
        name
    } else {
        let rounds = replace_rounds(name, weight_label(w));
        if rounds.1 {
            rounds.0
        } else if has_sub(name_lower, label_lower) {
            name
        } else {
            name + " "@ + weight_label(w)
        }
    }
}

/// The display name of a face: resolved from its name table, then
/// corrected against its weight.
pub open spec fn display_name(table: Option<Seq<NameEntry>>, ps: Seq<char>, w: u16) -> Seq<char> {
    let n = resolved_name(table, ps, w);
    corrected_name(n, w, lower_of(n), lower_of(weight_label(w)))
}

/// Best text for slot `id`, preferring the primary language, then the
/// secondary one, then any other Unicode entry.
pub fn find_name(table: &Vec<NameRecord>, id: u16) -> (r: Option<String>)
    ensures
        match r {
            Some(s) => best_name(table_view(table@), id) == Some(s@),
            None => best_name(table_view(table@), id) is None,
        },
{
    let ghost tv = table_view(table@);
    let mut best: Option<String> = None;
    let mut best_score: u8 = 0;
    let mut i: usize = 0;
    while i < table.len()
        invariant
            tv == table_view(table@),
            i <= table.len(),
            best_upto(tv, id, i as int).1 == best_score as int,
            match best {
                Some(s) => best_upto(tv, id, i as int).0 == Some(s@),
                None => best_upto(tv, id, i as int).0 is None,
            },
        decreases table.len() - i,
    {
        let rec = &table[i];
        assert(tv[i as int] == rec@);
        if rec.name_id == id && rec.is_unicode {
            let score: u8 = if rec.language_id == PRIMARY_LANGUAGE {
                3
            } else if rec.language_id == SECONDARY_LANGUAGE {
                2
            } else {
                1
            };
            if score > best_score {
                match &rec.text {
                    Some(t) => {
                        best = Some(t.clone());
                        best_score = score;
                    },
                    None => {},
                }
            }
        }
        i = i + 1;
    }
    best
}

/// The texts of a family slot and a subfamily slot, when both are filled.
fn find_name_pair(table: &Vec<NameRecord>, family_id: u16, subfamily_id: u16) -> (r: Option<(String, String)>)
    ensures
        match r {
            Some((f, s)) => name_pair(table_view(table@), family_id, subfamily_id) == Some((f@, s@)),
            None => name_pair(table_view(table@), family_id, subfamily_id) is None,
        },
{
    match (find_name(table, family_id), find_name(table, subfamily_id)) {
        (Some(f), Some(s)) => Some((f, s)),
        _ => None,
    }
}

/// Family and subfamily joined into one name, given their lower-case forms.
pub fn compose_lowered(family: &str, subfamily: &str, weight: u16, family_lower: &str, subfamily_lower: &str) -> (r: String)
    ensures
        r@ == composed(family@, subfamily@, weight, family_lower@, subfamily_lower@),
{
    let plain = str_equal(subfamily_lower, "regular") || str_equal(subfamily_lower, "normal");
    if plain && !is_regular_weight(weight) {
        String::from_str(family).concat(" ").concat(weight_to_name(weight))
    } else if str_contains(subfamily_lower, family_lower) {
        String::from_str(subfamily)
    } else {
        String::from_str(family).concat(" ").concat(subfamily)
    }
}

/// Family and subfamily joined into one name.
pub fn compose_names(family: &str, subfamily: &str, weight: u16) -> (r: String)
    ensures
        r@ == composed(family@, subfamily@, weight, lower_of(family@), lower_of(subfamily@)),
{
    let family_lower = lowercase(family);
    let subfamily_lower = lowercase(subfamily);
    compose_lowered(family, subfamily, weight, family_lower.as_str(), subfamily_lower.as_str())
}

/// One replacement round of the corrective pass.
fn apply_round(acc: String, changed: bool, target: &str, label: &str) -> (r: (String, bool))
    requires
        target@.len() > 0,
    ensures
        (r.0@, r.1) == replace_round((acc@, changed), target@, label@),
{
    if str_contains(acc.as_str(), target) {
        (str_replace(acc.as_str(), target, label), true)
    } else {
        (acc, changed)
    }
}

/// The corrective pass, given the lower-case forms of the name and of the
/// weight label.
pub fn correct_name_lowered(name: &str, weight: u16, name_lower: &str, label_lower: &str) -> (r: String)
    ensures
        r@ == corrected_name(name@, weight, name_lower@, label_lower@),
{
    if is_regular_weight(weight) {
        return String::from_str(name);
    }
    let label = weight_to_name(weight);
    proof {
        reveal_strlit("Normal");
        reveal_strlit("Regular");
        reveal_strlit("normal");
        reveal_strlit("regular");
    }
    let (current, changed) = apply_round(String::from_str(name), false, "Normal", label);
    let (current, changed) = apply_round(current, changed, "Regular", label);
    let (current, changed) = apply_round(current, changed, "normal", label);
    let (current, changed) = apply_round(current, changed, "regular", label);
    if changed {
        current
    } else if str_contains(name_lower, label_lower) {
        String::from_str(name)
    } else {
        String::from_str(name).concat(" ").concat(label)
    }
}

/// The corrective pass on a resolved name: for a non-regular weight,
/// "Normal"/"Regular" become the weight label, or the label is appended
/// when the name carries no weight at all.
pub fn correct_display_name(name: &str, weight: u16) -> (r: String)
    ensures
        r@ == corrected_name(name@, weight, lower_of(name@), lower_of(weight_label(weight))),
{
    let name_lower = lowercase(name);
    let label_lower = lowercase(weight_to_name(weight));
    correct_name_lowered(name, weight, name_lower.as_str(), label_lower.as_str())
}

/// A parsed name table as plain values, if any.
pub open spec fn opt_table_view(t: Option<Vec<NameRecord>>) -> Option<Seq<NameEntry>> {
    match t {
        Some(v) => Some(table_view(v@)),
        None => None,
    }
}

/// The name resolved from a name table before the corrective pass: the
/// preferred family and subfamily joined when both exist, else the legacy
/// family and subfamily when both exist, else the full name, else the
/// postscript name.
pub fn resolve_name(table: &Option<Vec<NameRecord>>, postscript_name: &str, weight: u16) -> (r: String)
    ensures
        r@ == resolved_name(opt_table_view(*table), postscript_name@, weight),
{
    match table {
        None => String::from_str(postscript_name),
        Some(t) => {
            let pair = match find_name_pair(t, PREFERRED_FAMILY_ID, PREFERRED_SUBFAMILY_ID) {
                Some(p) => Some(p),
                None => find_name_pair(t, FAMILY_ID, SUBFAMILY_ID),
            };
            match pair {
                Some((f, s)) => compose_names(f.as_str(), s.as_str(), weight),
                None => match find_name(t, FULL_NAME_ID) {
                    Some(full) => full,
                    None => String::from_str(postscript_name),
                },
            }
        },
    }
}

/// The display name of a face: resolved, then corrected.
pub fn face_display_name(table: &Option<Vec<NameRecord>>, postscript_name: &str, weight: u16) -> (r: String)
    ensures
        r@ == display_name(opt_table_view(*table), postscript_name@, weight),
{
    let resolved = resolve_name(table, postscript_name, weight);
    correct_display_name(resolved.as_str(), weight)
}

/// Name for the entries that ttf-parser reads from the name table of face
/// `index` of a font file, or `None` where the face cannot be parsed.
pub uninterp spec fn name_table_of(data: Seq<u8>, index: u32) -> Option<Seq<(u16, u16, bool, Option<Seq<char>>)>>;

/// Relies on `ttf_parser::Face::parse` and `Face::names`, with each
/// entry's `name_id`, `language_id`, `Name::is_unicode` and
/// `Name::to_string`: the entries depend on the bytes and the index alone.
#[verifier::external_body]
pub(crate) fn parse_name_table(data: &[u8], index: u32) -> (r: Option<Vec<NameRecord>>)
    ensures
        opt_table_view(r) == name_table_of(data@, index),
{
    let face = ttf_parser::Face::parse(data, index).ok()?;
    let mut out = Vec::new();
    for n in face.names() {
        out.push(NameRecord::new(n.name_id, n.language_id, n.is_unicode(), n.to_string()));
    }
    Some(out)
}

proof fn lemma_no_longer_sub(s: Seq<char>, t: Seq<char>)
    requires
        t.len() > s.len(),
    ensures
        !has_sub(s, t),
{
    assert forall|i: int| !occurs_at(s, t, i) by {}
}

/// A name of three letters carries neither "Normal"/"Regular" nor any
/// weight label, so the corrective pass appends the label exactly when the
/// weight is not regular. Stated over the lower-case forms, whose lengths
/// are those of the name and the label.
pub proof fn lemma_short_name_gets_weight_label(w: u16, name_lower: Seq<char>, label_lower: Seq<char>)
    requires
        100 <= w <= 999,
        name_lower.len() == 3,
        label_lower.len() == weight_label(w).len(),
    ensures
        is_regular(w) ==> corrected_name("Foo"@, w, name_lower, label_lower) == "Foo"@,
        !is_regular(w) ==> corrected_name("Foo"@, w, name_lower, label_lower) == "Foo"@ + " "@
            + weight_label(w),
{
    reveal_strlit("Foo");
    reveal_strlit("Normal");
    reveal_strlit("Regular");
    reveal_strlit("normal");
    reveal_strlit("regular");
    reveal_strlit("Thin");
    reveal_strlit("ExtraLight");
    reveal_strlit("Light");
    reveal_strlit("DemiLight");
    reveal_strlit("Medium");
    reveal_strlit("SemiBold");
    reveal_strlit("Bold");
    reveal_strlit("ExtraBold");
    reveal_strlit("Black");
    lemma_no_longer_sub("Foo"@, "Normal"@);
    lemma_no_longer_sub("Foo"@, "Regular"@);
    lemma_no_longer_sub("Foo"@, "normal"@);
    lemma_no_longer_sub("Foo"@, "regular"@);
    if !is_regular(w) {
        assert(weight_label(w).len() >= 4);
        lemma_no_longer_sub(name_lower, label_lower);
    }
}

} // verus!
