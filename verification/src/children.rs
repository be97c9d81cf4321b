//! Finding one of an element's pads.

use vstd::prelude::*;

use crate::text::{same_text, texts};

verus! {

/// Whether `at` is the first place in `names` that holds `name`.
pub open spec fn first_named(names: Seq<Seq<char>>, name: Seq<char>, at: int) -> bool {
    &&& 0 <= at < names.len()
    &&& names[at] == name
    &&& forall|i: int| 0 <= i < at ==> #[trigger] names[i] != name
}

/// The first pad with the name, given the names of all pads.
pub fn child_by_name(names: &Vec<String>, name: &str) -> (r: Option<usize>)
    ensures
        match r {
            Some(at) => first_named(texts(names@), name@, at as int),
            None => !texts(names@).contains(name@),
        },
{
    let mut at: usize = 0;
    while at < names.len()
        invariant
            at <= names@.len(),
            forall|i: int| 0 <= i < at ==> #[trigger] texts(names@)[i] != name@,
        decreases names@.len() - at,
    {
        assert(texts(names@)[at as int] == names@[at as int]@);
        if same_text(names[at].as_str(), name) {
            return Some(at);
        }
        at = at + 1;
    }
    None
}

/// The pad at a place, given the number of pads.
pub fn child_by_index(count: usize, index: u32) -> (r: Option<usize>)
    ensures
        match r {
            Some(at) => at == index && index < count,
            None => index >= count,
        },
{
    if (index as u64) < (count as u64) {
        Some(index as usize)
    } else {
        None
    }
}

/// Each pad is found by its name where the names differ.
pub proof fn law_named_child_is_found(names: Seq<Seq<char>>, at: int)
    requires
        0 <= at < names.len(),
        forall|i: int, j: int| 0 <= i < j < names.len() ==> names[i] != names[j],
    ensures
        names.contains(names[at]),
        forall|found: int| #[trigger] first_named(names, names[at], found) ==> found == at,
{
}

/// A pad is found by its name or its place exactly if there is one, and it is
/// the first that has the name.
pub proof fn law_children_are_found(
    names: &Vec<String>,
    name: &str,
    named: Option<usize>,
    count: usize,
    index: u32,
    placed: Option<usize>,
)
    requires
        call_ensures(child_by_name, (names, name), named),
        call_ensures(child_by_index, (count, index), placed),
    ensures
        named is Some ==> named->0 < names@.len() && names@[named->0 as int]@ == name@,
        named is Some ==> forall|i: int| 0 <= i < named->0 ==> (#[trigger] names@[i])@ != name@,
        named is None ==> forall|i: int|
            0 <= i < names@.len() ==> (#[trigger] names@[i])@ != name@,
        placed is Some <==> index < count,
        placed is Some ==> placed->0 == index,
{
    let all = texts(names@);
    if named is Some {
        assert forall|i: int| 0 <= i < named->0 implies (#[trigger] names@[i])@ != name@ by {
            assert(all[i] == names@[i]@);
        }
    } else {
        assert forall|i: int| 0 <= i < names@.len() implies (#[trigger] names@[i])@ != name@ by {
            assert(all[i] == names@[i]@);
            assert(all.contains(all[i]));
        }
    }
}

} // verus!
