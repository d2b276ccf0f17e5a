//! Registry rules: value names for installed fonts and the entries that
//! point at a file.
use vstd::prelude::*;
use crate::text::{lower_of, lowercase, str_equal};

verus! {

/// One value of the per-user font registry key: its name and stored path.
#[derive(Clone, Debug)]
pub struct RegistryValue {
    pub name: String,
    pub data: String,
}

/// Names of the values, among the first `n`, whose lower-cased data equals
/// `target_lower`, in registry order.
pub open spec fn matching_upto(values: Seq<RegistryValue>, lowered: Seq<Seq<char>>, target_lower: Seq<char>, n: int) -> Seq<Seq<char>>
    decreases n,
{
    if n <= 0 {
        Seq::empty()
    } else if lowered[n - 1] == target_lower {
        matching_upto(values, lowered, target_lower, n - 1).push(values[n - 1].name@)
    } else {
        matching_upto(values, lowered, target_lower, n - 1)
    }
}

/// The lower-cased data of each value.
pub open spec fn lowered_data(values: Seq<RegistryValue>) -> Seq<Seq<char>> {
    values.map_values(|v: RegistryValue| lower_of(v.data@))
}

/// Names of the values whose data is the target path, compared without
/// regard to letter case, given the lower-cased data and target.
pub fn matching_names_lowered(values: &Vec<RegistryValue>, data_lower: &Vec<String>, target_lower: &str) -> (r: Vec<String>)
    requires
        data_lower@.len() == values@.len(),
    ensures
        r@.map_values(|s: String| s@) == matching_upto(
            values@,
            data_lower@.map_values(|s: String| s@),
            target_lower@,
            values@.len() as int,
        ),
{
    let ghost lowered = data_lower@.map_values(|s: String| s@);
    let mut out: Vec<String> = Vec::new();
    let mut i: usize = 0;
    while i < values.len()
        invariant
            data_lower@.len() == values@.len(),
            lowered == data_lower@.map_values(|s: String| s@),
            i <= values.len(),
            out@.map_values(|s: String| s@) == matching_upto(values@, lowered, target_lower@, i as int),
        decreases values.len() - i,
    {
        let ghost before = out@;
        if str_equal(data_lower[i].as_str(), target_lower) {
            out.push(values[i].name.clone());
            assert(out@.map_values(|s: String| s@) =~= before.map_values(|s: String| s@).push(
                values@[i as int].name@,
            ));
        }
        i = i + 1;
    }
    out
}

/// Names of the values whose data is `target`, compared without regard to
/// letter case: all of them are collected before any is deleted.
pub fn matching_names(values: &Vec<RegistryValue>, target: &str) -> (r: Vec<String>)
    ensures
        r@.map_values(|s: String| s@) == matching_upto(
            values@,
            lowered_data(values@),
            lower_of(target@),
            values@.len() as int,
        ),
{
    let mut data_lower: Vec<String> = Vec::new();
    let mut i: usize = 0;
    while i < values.len()
        invariant
            i <= values.len(),
            data_lower@.len() == i,
            forall|k: int| 0 <= k < i ==> (#[trigger] data_lower@[k])@ == lower_of(values@[k].data@),
        decreases values.len() - i,
    {
        data_lower.push(lowercase(values[i].data.as_str()));
        i = i + 1;
    }
    let target_lower = lowercase(target);
    let r = matching_names_lowered(values, &data_lower, target_lower.as_str());
    assert(data_lower@.map_values(|s: String| s@) =~= lowered_data(values@));
    r
}

} // verus!
