use vstd::prelude::*;

verus! {

/// The texts of a list of names, in the same order.
pub open spec fn texts(names: Seq<String>) -> Seq<Seq<char>> {
    names.map_values(|name: String| name@)
}

/// Some entry of `names` reads `text`.
pub open spec fn contains_name(names: Seq<String>, text: Seq<char>) -> bool {
    exists|j: int| 0 <= j < names.len() && (#[trigger] names[j])@ == text
}

/// Every entry of `required` occurs in `available`.
pub open spec fn all_present(available: Seq<String>, required: Seq<String>) -> bool {
    forall|i: int| 0 <= i < required.len() ==> contains_name(available, (#[trigger] required[i])@)
}

/// Whether some entry of `names` reads like `name`.
pub fn has_name(names: &Vec<String>, name: &String) -> (found: bool)
    ensures
        found == contains_name(names@, name@),
{
    let mut j: usize = 0;
    while j < names.len()
        invariant
            j <= names.len(),
            forall|k: int| 0 <= k < j ==> (#[trigger] names@[k])@ != name@,
        decreases names.len() - j,
    {
        if names[j] == *name {
            assert(names@[j as int]@ == name@);
            return true;
        }
        j += 1;
    }
    false
}

/// Whether every entry of `required` occurs in `available`.
pub fn has_all_names(available: &Vec<String>, required: &Vec<String>) -> (found: bool)
    ensures
        found == all_present(available@, required@),
{
    let mut i: usize = 0;
    while i < required.len()
        invariant
            i <= required.len(),
            forall|k: int| 0 <= k < i ==> contains_name(available@, (#[trigger] required@[k])@),
        decreases required.len() - i,
    {
        if !has_name(available, &required[i]) {
            assert(!contains_name(available@, required@[i as int]@));
            return false;
        }
        i += 1;
    }
    true
}

/// A copy of the list, name by name.
pub fn clone_names(names: &Vec<String>) -> (copy: Vec<String>)
    ensures
        texts(copy@) == texts(names@),
{
    let mut copy: Vec<String> = Vec::new();
    let mut i: usize = 0;
    while i < names.len()
        invariant
            i <= names.len(),
            copy@.len() == i,
            forall|k: int| 0 <= k < i ==> (#[trigger] copy@[k])@ == names@[k]@,
        decreases names.len() - i,
    {
        copy.push(names[i].clone());
        i += 1;
    }
    assert(texts(copy@) =~= texts(names@));
    copy
}

} // verus!
