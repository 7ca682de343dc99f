//! Sequences of named entries, and how a name is looked up in one.

use vstd::prelude::*;

verus! {

/// The first index at which `entries` holds `name`.
pub open spec fn position<V>(entries: Seq<(Seq<char>, V)>, name: Seq<char>) -> Option<int>
    decreases entries.len(),
{
    if entries.len() == 0 {
        None
    } else {
        match position(entries.drop_last(), name) {
            Some(i) => Some(i),
            None => if entries.last().0 == name {
                Some(entries.len() - 1)
            } else {
                None
            },
        }
    }
}

/// Whether `entries` holds `name`.
pub open spec fn has_name<V>(entries: Seq<(Seq<char>, V)>, name: Seq<char>) -> bool {
    exists|i: int| 0 <= i < entries.len() && (#[trigger] entries[i]).0 == name
}

/// What `entries` holds for `name`, at the first place where the name
/// stands.
pub open spec fn lookup<V>(entries: Seq<(Seq<char>, V)>, name: Seq<char>) -> Option<V> {
    match position(entries, name) {
        Some(i) => Some(entries[i].1),
        None => None,
    }
}

/// `position` finds the first entry with the name, and finds one whenever
/// there is one.
pub proof fn lemma_position<V>(entries: Seq<(Seq<char>, V)>, name: Seq<char>)
    ensures
        position(entries, name) matches Some(i) ==> 0 <= i < entries.len() && entries[i].0 == name
            && forall|j: int| 0 <= j < i ==> (#[trigger] entries[j]).0 != name,
        position(entries, name) is None ==> !has_name(entries, name),
        position(entries, name) is Some ==> has_name(entries, name),
    decreases entries.len(),
{
    if entries.len() > 0 {
        let front = entries.drop_last();
        lemma_position(front, name);
        match position(front, name) {
            Some(i) => {
                assert(entries[i] == front[i]);
                assert forall|j: int| 0 <= j < i implies (#[trigger] entries[j]).0 != name by {
                    assert(entries[j] == front[j]);
                }
            },
            None => {
                assert forall|j: int| 0 <= j < entries.len() - 1 implies (#[trigger] entries[j]).0
                    != name by {
                    assert(entries[j] == front[j]);
                }
            },
        }
    }
}

/// An index that holds `name` and has no earlier one that does is the one
/// that `position` finds.
pub proof fn lemma_position_is_first<V>(entries: Seq<(Seq<char>, V)>, name: Seq<char>, i: int)
    requires
        0 <= i < entries.len(),
        entries[i].0 == name,
        forall|j: int| 0 <= j < i ==> (#[trigger] entries[j]).0 != name,
    ensures
        position(entries, name) == Some(i),
{
    lemma_position(entries, name);
}

} // verus!
