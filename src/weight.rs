//! Weight buckets and the correction of a face's weight from its
//! postscript name.
use vstd::prelude::*;
use crate::text::{has_sub, lower_of, lowercase, str_contains};

verus! {

/// Human label of the weight bucket that holds `w`.
pub open spec fn weight_label(w: u16) -> Seq<char> {
    if 100 <= w <= 199 {
        "Thin"@
    } else if 200 <= w <= 299 {
        "ExtraLight"@
    } else if 300 <= w <= 349 {
        "Light"@
    } else if 350 <= w <= 399 {
        "DemiLight"@
    } else if 400 <= w <= 499 {
        "Regular"@
    } else if 500 <= w <= 599 {
        "Medium"@
    } else if 600 <= w <= 699 {
        "SemiBold"@
    } else if 700 <= w <= 799 {
        "Bold"@
    } else if 800 <= w <= 899 {
        "ExtraBold"@
    } else if 900 <= w <= 999 {
        "Black"@
    } else {
        "Regular"@
    }
}

/// `w` lies in the regular bucket.
pub open spec fn is_regular(w: u16) -> bool {
    400 <= w <= 499
}

/// The weight tokens looked for in a lower-cased postscript name, in the
/// order they are tried: compound tokens come before the shorter tokens
/// they contain.
pub open spec fn token_table() -> Seq<(Seq<char>, u16)> {
    seq![
        ("thin"@, 100u16),
        ("extralight"@, 200u16),
        ("demilight"@, 350u16),
        ("light"@, 300u16),
        ("medium"@, 500u16),
        ("semibold"@, 600u16),
        ("extrabold"@, 800u16),
        ("bold"@, 700u16),
        ("black"@, 900u16),
        ("heavy"@, 900u16),
    ]
}

/// Weight of the first token, from position `i` of the table on, that
/// occurs in `lowered`; 400 when none does.
pub open spec fn token_weight_from(lowered: Seq<char>, i: int) -> u16
    decreases token_table().len() - i,
{
    if i < 0 || i >= token_table().len() {
        400
    } else if has_sub(lowered, token_table()[i].0) {
        token_table()[i].1
    } else {
        token_weight_from(lowered, i + 1)
    }
}

/// The corrected weight: a declared 400 is replaced by the weight of the
/// first token found in the lower-cased postscript name.
pub open spec fn corrected_weight(w: u16, lowered: Seq<char>) -> u16 {
    if w == 400 {
        token_weight_from(lowered, 0)
    } else {
        w
    }
}

/// Label of the weight bucket of `weight`.
pub fn weight_to_name(weight: u16) -> (r: &'static str)
    ensures
        r@ == weight_label(weight),
{
    if 100 <= weight && weight <= 199 {
        "Thin"
    } else if 200 <= weight && weight <= 299 {
        "ExtraLight"
    } else if 300 <= weight && weight <= 349 {
        "Light"
    } else if 350 <= weight && weight <= 399 {
        "DemiLight"
    } else if 400 <= weight && weight <= 499 {
        "Regular"
    } else if 500 <= weight && weight <= 599 {
        "Medium"
    } else if 600 <= weight && weight <= 699 {
        "SemiBold"
    } else if 700 <= weight && weight <= 799 {
        "Bold"
    } else if 800 <= weight && weight <= 899 {
        "ExtraBold"
    } else if 900 <= weight && weight <= 999 {
        "Black"
    } else {
        "Regular"
    }
}

/// Whether `weight` lies in the regular bucket, 400 to 499.
pub fn is_regular_weight(weight: u16) -> (r: bool)
    ensures
        r == is_regular(weight),
{
    weight >= 400 && weight <= 499
}

/// The ordered token table as executable data.
fn weight_tokens() -> (r: Vec<(&'static str, u16)>)
    ensures
        r@.len() == token_table().len(),
        forall|i: int|
            0 <= i < r@.len() ==> (#[trigger] r@[i]).0@ == token_table()[i].0 && r@[i].1
                == token_table()[i].1,
{
    let r = vec![
        ("thin", 100u16),
        ("extralight", 200u16),
        ("demilight", 350u16),
        ("light", 300u16),
        ("medium", 500u16),
        ("semibold", 600u16),
        ("extrabold", 800u16),
        ("bold", 700u16),
        ("black", 900u16),
        ("heavy", 900u16),
    ];
    r
}

/// The corrected weight, given the postscript name already lower-cased.
pub fn weight_from_lowered(weight: u16, lowered: &str) -> (r: u16)
    ensures
        r == corrected_weight(weight, lowered@),
{
    if weight != 400 {
        return weight;
    }
    let tokens = weight_tokens();
    let mut i: usize = 0;
    while i < tokens.len()
        invariant
            weight == 400,
            tokens@.len() == token_table().len(),
            forall|k: int|
                0 <= k < tokens@.len() ==> (#[trigger] tokens@[k]).0@ == token_table()[k].0
                    && tokens@[k].1 == token_table()[k].1,
            0 <= i <= tokens.len(),
            token_weight_from(lowered@, 0) == token_weight_from(lowered@, i as int),
        decreases tokens.len() - i,
    {
        let (token, w) = tokens[i];
        assert(tokens@[i as int].0@ == token_table()[i as int].0);
        if str_contains(lowered, token) {
            assert(token_weight_from(lowered@, i as int) == w);
            return w;
        }
        i = i + 1;
    }
    400
}

/// The weight of a face after correction from its postscript name: a
/// declared 400 often means "unknown", so the name's weight token, if any,
/// decides.
pub fn correct_weight(weight: u16, postscript_name: &str) -> (r: u16)
    ensures
        r == corrected_weight(weight, lower_of(postscript_name@)),
{
    if weight != 400 {
        return weight;
    }
    let lowered = lowercase(postscript_name);
    weight_from_lowered(weight, lowered.as_str())
}

/// Over weights 100 to 999, a weight lies in the regular bucket exactly
/// when its label is "Regular" (below 100 the label falls back to
/// "Regular" as well).
pub proof fn lemma_regular_iff_regular_label(w: u16)
    requires
        100 <= w <= 999,
    ensures
        is_regular(w) <==> weight_label(w) == "Regular"@,
{
    reveal_strlit("Thin");
    reveal_strlit("ExtraLight");
    reveal_strlit("Light");
    reveal_strlit("DemiLight");
    reveal_strlit("Regular");
    reveal_strlit("Medium");
    reveal_strlit("SemiBold");
    reveal_strlit("Bold");
    reveal_strlit("ExtraBold");
    reveal_strlit("Black");
    if !is_regular(w) {
        assert(weight_label(w) != "Regular"@) by {
            if weight_label(w).len() == "Regular"@.len() {
                assert(weight_label(w)[0] != "Regular"@[0] || weight_label(w)[1] != "Regular"@[1]);
            }
        }
    }
}

} // verus!
