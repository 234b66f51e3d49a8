//! Names of shader variables: checking, joining, and finding the missing ones.

use vstd::prelude::*;
use vstd::string::StringExecFns;

verus! {

/// Whether the text holds a NUL character (such a name cannot be handed to
/// the GL as a C string).
pub fn has_nul(s: &str) -> (b: bool)
    ensures
        b == s@.contains('\0'),
{
    broadcast use vstd::string::group_string_axioms;

    let mut found = false;
    for c in it: s.chars()
        invariant
            it.seq() == s@,
            found <==> (exists|j: int| 0 <= j < it.index() && s@[j] == '\0'),
    {
        if c == '\0' {
            assert(s@[it.index() as int] == '\0');
            found = true;
        }
    }
    proof {
        if found {
            let j = choose|j: int| 0 <= j < s@.len() && s@[j] == '\0';
            assert(s@.contains('\0'));
        }
    }
    found
}

/// The names, in order, whose location was not found: those past the end of
/// `locations`, and those whose location `absent` judges as not found.
pub open spec fn missing_names(
    names: Seq<&'static str>,
    locations: Seq<i32>,
    absent: spec_fn(i32) -> bool,
) -> Seq<&'static str>
    decreases names.len(),
{
    if names.len() == 0 {
        Seq::empty()
    } else {
        let i = names.len() - 1;
        let before = missing_names(names.drop_last(), locations, absent);
        if i >= locations.len() || absent(locations[i]) {
            before.push(names[i])
        } else {
            before
        }
    }
}

/// No name is missing exactly when every name has a location, and none of
/// them is judged absent; the missing names are never more than the names.
pub proof fn lemma_missing_names_bounds(names: Seq<&'static str>, locations: Seq<i32>, absent: spec_fn(i32) -> bool)
    ensures
        missing_names(names, locations, absent).len() <= names.len(),
        missing_names(names, locations, absent).len() == 0 <==> (names.len() <= locations.len() && forall|i: int|
            0 <= i < names.len() ==> !absent(#[trigger] locations[i])),
    decreases names.len(),
{
    if names.len() > 0 {
        let i = names.len() - 1;
        lemma_missing_names_bounds(names.drop_last(), locations, absent);
        if missing_names(names, locations, absent).len() == 0 {
            assert forall|j: int| 0 <= j < names.len() implies !absent(#[trigger] locations[j]) by {
                if j < i {
                    assert(names.drop_last().len() == i);
                }
            }
        }
        if names.len() <= locations.len() && forall|j: int| 0 <= j < names.len() ==> !absent(#[trigger] locations[j]) {
            assert(!absent(locations[i]));
            assert forall|j: int| 0 <= j < names.drop_last().len() implies !absent(#[trigger] locations[j]) by {
                assert(0 <= j < names.len());
            }
        }
    }
}

/// Position `i` of the names has no location, or one that `absent` judges
/// as not found.
pub open spec fn absent_at(names: Seq<&'static str>, locations: Seq<i32>, absent: spec_fn(i32) -> bool, i: int) -> bool {
    0 <= i < names.len() && (i >= locations.len() || absent(locations[i]))
}

/// `name` is the name at a position that has no location, or one that
/// `absent` judges as not found.
pub open spec fn named_absent(names: Seq<&'static str>, locations: Seq<i32>, absent: spec_fn(i32) -> bool, name: &'static str) -> bool {
    exists|i: int| #[trigger] absent_at(names, locations, absent, i) && names[i] == name
}

/// The missing names are exactly the names at the positions that have no
/// location or whose location `absent` judges as not found: each missing name
/// is the name at such a position, and the name at each such position is
/// missing.
pub proof fn lemma_missing_names_members(names: Seq<&'static str>, locations: Seq<i32>, absent: spec_fn(i32) -> bool)
    ensures
        forall|k: int|
            0 <= k < missing_names(names, locations, absent).len() ==> named_absent(
                names,
                locations,
                absent,
                #[trigger] missing_names(names, locations, absent)[k],
            ),
        forall|i: int|
            #[trigger] absent_at(names, locations, absent, i) ==> missing_names(names, locations, absent).contains(names[i]),
    decreases names.len(),
{
    if names.len() > 0 {
        let n = names.len() - 1;
        let init = names.drop_last();
        lemma_missing_names_members(init, locations, absent);
        let before = missing_names(init, locations, absent);
        assert forall|k: int| 0 <= k < missing_names(names, locations, absent).len() implies named_absent(
            names,
            locations,
            absent,
            #[trigger] missing_names(names, locations, absent)[k],
        ) by {
            if k < before.len() {
                assert(missing_names(names, locations, absent)[k] == before[k]);
                assert(named_absent(init, locations, absent, before[k]));
                let i = choose|i: int| #[trigger] absent_at(init, locations, absent, i) && init[i] == before[k];
                assert(names[i] == init[i]);
                assert(absent_at(names, locations, absent, i));
            } else {
                assert(missing_names(names, locations, absent)[k] == names[n]);
                assert(absent_at(names, locations, absent, n));
            }
        }
        assert forall|i: int| #[trigger] absent_at(names, locations, absent, i) implies missing_names(names, locations, absent).contains(names[i]) by {
            if i < n {
                assert(names[i] == init[i]);
                assert(absent_at(init, locations, absent, i));
                assert(before.contains(init[i]));
                let k = choose|k: int| 0 <= k < before.len() && before[k] == init[i];
                assert(missing_names(names, locations, absent)[k] == before[k]);
            } else {
                assert(missing_names(names, locations, absent)[missing_names(names, locations, absent).len() - 1] == names[n]);
            }
        }
    }
}

/// The names separated by `", "`.
pub open spec fn joined(names: Seq<&'static str>) -> Seq<char>
    decreases names.len(),
{
    if names.len() == 0 {
        Seq::empty()
    } else if names.len() == 1 {
        names[0]@
    } else {
        joined(names.drop_last()) + ", "@ + names.last()@
    }
}

/// `text` followed by the names separated by `", "` in square brackets.
pub fn bracketed_list(text: &str, names: &Vec<&'static str>) -> (s: String)
    ensures
        s@ == text@ + "["@ + joined(names@) + "]"@,
{
    let mut s = String::from_str(text);
    s.append("[");
    let ghost start = s@;
    let mut i: usize = 0;
    while i < names.len()
        invariant
            0 <= i <= names.len(),
            s@ == start + joined(names@.take(i as int)),
        decreases names.len() - i,
    {
        assert(names@.take(i + 1).drop_last() =~= names@.take(i as int));
        if i > 0 {
            s.append(", ");
        }
        s.append(names[i]);
        i += 1;
        assert(s@ =~= start + joined(names@.take(i as int)));
    }
    assert(names@.take(names.len() as int) =~= names@);
    s.append("]");
    s
}

} // verus!
