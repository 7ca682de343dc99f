//! The header mapping of a normalized request: names to values, one entry
//! for each name, kept in the order in which the names first arrived.

use crate::entries::{has_name, lemma_position, lemma_position_is_first, lookup, position};
use crate::json::pairs_view;
use crate::text::same_text;
use vstd::prelude::*;

verus! {

/// No name occurs twice in `entries`.
pub open spec fn distinct_names(entries: Seq<(Seq<char>, Seq<char>)>) -> bool {
    forall|i: int, j: int|
        0 <= i < j < entries.len() ==> (#[trigger] entries[i]).0 != (#[trigger] entries[j]).0
}

/// `entries` with `value` stored under `name`: in place of the value that the
/// name had, or as a new last entry where it had none.
pub open spec fn upsert(
    entries: Seq<(Seq<char>, Seq<char>)>,
    name: Seq<char>,
    value: Seq<char>,
) -> Seq<(Seq<char>, Seq<char>)> {
    match position(entries, name) {
        Some(i) => entries.update(i, (name, value)),
        None => entries.push((name, value)),
    }
}

/// `entries` as a mapping from names to values.
pub open spec fn entries_map(entries: Seq<(Seq<char>, Seq<char>)>) -> Map<Seq<char>, Seq<char>> {
    Map::new(
        |name: Seq<char>| has_name(entries, name),
        |name: Seq<char>| lookup(entries, name).unwrap(),
    )
}

/// Storing a value under a name gives the name that value and leaves what is
/// found under every other name alone: as a mapping, the entries afterwards
/// are the entries before with the one pair inserted.
pub proof fn lemma_upsert(entries: Seq<(Seq<char>, Seq<char>)>, name: Seq<char>, value: Seq<char>)
    ensures
        lookup(upsert(entries, name, value), name) == Some(value),
        forall|other: Seq<char>|
            other != name ==> #[trigger] lookup(upsert(entries, name, value), other) == lookup(
                entries,
                other,
            ),
        forall|other: Seq<char>| #[trigger]
            has_name(upsert(entries, name, value), other) <==> (other == name || has_name(
                entries,
                other,
            )),
        entries_map(upsert(entries, name, value)) == entries_map(entries).insert(name, value),
{
    let after = upsert(entries, name, value);
    lemma_position(entries, name);
    let at: int = match position(entries, name) {
        Some(i) => i,
        None => entries.len() as int,
    };
    assert(after.len() > at && after[at] == (name, value));
    assert forall|j: int| 0 <= j < after.len() && j != at implies #[trigger] after[j]
        == entries[j] by {}
    assert forall|j: int| 0 <= j < at implies (#[trigger] after[j]).0 != name by {
        assert(after[j] == entries[j]);
    }
    lemma_position_is_first(after, name, at);
    assert forall|other: Seq<char>| other != name implies #[trigger] lookup(after, other)
        == lookup(entries, other) by {
        lemma_position(entries, other);
        lemma_position(after, other);
        match position(entries, other) {
            Some(i) => {
                assert(after[i] == entries[i]);
                assert forall|j: int| 0 <= j < i implies (#[trigger] after[j]).0 != other by {
                    if j != at {
                        assert(after[j] == entries[j]);
                    }
                }
                lemma_position_is_first(after, other, i);
            },
            None => {
                if position(after, other) is Some {
                    let i = position(after, other).unwrap();
                    assert(after[i] == entries[i]);
                    assert(entries[i].0 == other);
                }
            },
        }
    }
    assert forall|other: Seq<char>| #[trigger]
        has_name(after, other) <==> (other == name || has_name(entries, other)) by {
        lemma_position(entries, other);
        lemma_position(after, other);
        if other == name {
            assert(after[at].0 == name);
        } else {
            assert(lookup(after, other) == lookup(entries, other));
        }
    }
    assert(entries_map(after) =~= entries_map(entries).insert(name, value));
}

/// Storing a value under a name keeps the names distinct, and adds an entry
/// exactly if the name had none.
pub proof fn lemma_upsert_keeps_names_distinct(
    entries: Seq<(Seq<char>, Seq<char>)>,
    name: Seq<char>,
    value: Seq<char>,
)
    requires
        distinct_names(entries),
    ensures
        distinct_names(upsert(entries, name, value)),
        upsert(entries, name, value).len() == entries.len() + (if has_name(entries, name) {
            0int
        } else {
            1int
        }),
{
    let after = upsert(entries, name, value);
    lemma_position(entries, name);
    let at: int = match position(entries, name) {
        Some(i) => i,
        None => entries.len() as int,
    };
    assert forall|i: int, j: int| 0 <= i < j < after.len() implies (#[trigger] after[i]).0 != (
    #[trigger] after[j]).0 by {
        if i != at && j != at {
            assert(after[i] == entries[i]);
            assert(after[j] == entries[j]);
            assert(entries[i].0 != entries[j].0);
        } else if position(entries, name) is Some {
            assert(after[at].0 == entries[at].0);
            if i == at {
                assert(after[j] == entries[j]);
                assert(entries[i].0 != entries[j].0);
            } else {
                assert(after[i] == entries[i]);
                assert(entries[i].0 != entries[j].0);
            }
        } else {
            assert(j == at);
            assert(after[i] == entries[i]);
        }
    }
}

/// The headers of a normalized request.
#[derive(Debug, Clone, PartialEq, Eq)]
pub struct Headers {
    entries: Vec<(String, String)>,
}

impl View for Headers {
    type V = Seq<(Seq<char>, Seq<char>)>;

    /// The entries as names and values, in the order in which the names were
    /// first stored.
    closed spec fn view(&self) -> Seq<(Seq<char>, Seq<char>)> {
        self.entries@.map_values(|entry: (String, String)| (entry.0@, entry.1@))
    }
}

impl Headers {
    /// No name has two entries.
    pub open spec fn wf(&self) -> bool {
        distinct_names(self@)
    }

    /// The headers as a mapping from names to values.
    pub open spec fn as_map(&self) -> Map<Seq<char>, Seq<char>> {
        entries_map(self@)
    }

    /// What the view holds, entry by entry.
    proof fn lemma_view(&self)
        ensures
            self@.len() == self.entries@.len(),
            forall|j: int|
                0 <= j < self.entries@.len() ==> #[trigger] self@[j] == (
                    self.entries@[j].0@,
                    self.entries@[j].1@,
                ),
    {
    }

    /// No headers.
    pub fn new() -> (headers: Headers)
        ensures
            headers@ == Seq::<(Seq<char>, Seq<char>)>::empty(),
            headers.wf(),
    {
        let headers = Headers { entries: Vec::new() };
        assert(headers@ =~= Seq::<(Seq<char>, Seq<char>)>::empty());
        headers
    }

    /// The number of entries.
    pub fn len(&self) -> (count: usize)
        ensures
            count == self@.len(),
    {
        proof {
            self.lemma_view();
        }
        self.entries.len()
    }

    /// Whether there is no entry.
    pub fn is_empty(&self) -> (empty: bool)
        ensures
            empty == (self@.len() == 0),
    {
        proof {
            self.lemma_view();
        }
        self.entries.len() == 0
    }

    /// The entry at `index`, as name and value; `None` where there are not
    /// that many entries.
    pub fn entry(&self, index: usize) -> (entry: Option<(&String, &String)>)
        ensures
            entry matches Some(found) ==> index < self@.len() && (found.0@, found.1@)
                == self@[index as int],
            entry is None ==> index >= self@.len(),
    {
        proof {
            self.lemma_view();
        }
        if index < self.entries.len() {
            let pair = &self.entries[index];
            Some((&pair.0, &pair.1))
        } else {
            None
        }
    }

    /// Where `name` has its entry.
    fn find(&self, name: &str) -> (found: Option<usize>)
        ensures
            found matches Some(i) ==> position(self@, name@) == Some(i as int),
            found is None ==> position(self@, name@) is None,
    {
        proof {
            self.lemma_view();
        }
        let mut i: usize = 0;
        while i < self.entries.len()
            invariant
                i <= self.entries.len(),
                self@.len() == self.entries@.len(),
                forall|j: int|
                    0 <= j < self.entries@.len() ==> #[trigger] self@[j] == (
                        self.entries@[j].0@,
                        self.entries@[j].1@,
                    ),
                forall|j: int| 0 <= j < i ==> (#[trigger] self@[j]).0 != name@,
            decreases self.entries.len() - i,
        {
            if same_text(self.entries[i].0.as_str(), name) {
                proof {
                    lemma_position_is_first(self@, name@, i as int);
                }
                return Some(i);
            }
            i += 1;
        }
        proof {
            lemma_position(self@, name@);
        }
        None
    }

    /// The value stored under `name`.
    pub fn get(&self, name: &str) -> (value: Option<&String>)
        ensures
            value matches Some(text) ==> self.as_map().contains_key(name@) && self.as_map()[name@]
                == text@,
            value is None ==> !self.as_map().contains_key(name@),
    {
        proof {
            self.lemma_view();
            lemma_position(self@, name@);
        }
        match self.find(name) {
            Some(i) => Some(&self.entries[i].1),
            None => None,
        }
    }

    /// Whether a value is stored under `name`.
    pub fn contains(&self, name: &str) -> (held: bool)
        ensures
            held == self.as_map().contains_key(name@),
    {
        proof {
            lemma_position(self@, name@);
        }
        self.find(name).is_some()
    }

    /// Stores `value` under `name`: in place of the value that the name had,
    /// or as a new last entry where it had none.
    pub fn insert(&mut self, name: String, value: String)
        ensures
            final(self)@ == upsert(old(self)@, name@, value@),
            final(self).as_map() == old(self).as_map().insert(name@, value@),
            old(self).wf() ==> final(self).wf(),
    {
        proof {
            self.lemma_view();
            lemma_position(self@, name@);
            lemma_upsert(self@, name@, value@);
            if self.wf() {
                lemma_upsert_keeps_names_distinct(self@, name@, value@);
            }
        }
        match self.find(name.as_str()) {
            Some(i) => {
                self.entries.set(i, (name, value));
            },
            None => {
                self.entries.push((name, value));
            },
        }
        proof {
            self.lemma_view();
            assert(self@ =~= upsert(old(self)@, name@, value@));
        }
    }

    /// The entries as names and values, ready to be written as a record.
    pub fn to_pairs(&self) -> (pairs: Vec<(String, String)>)
        ensures
            pairs_view(pairs@) == self@,
    {
        proof {
            self.lemma_view();
        }
        let mut pairs: Vec<(String, String)> = Vec::new();
        let mut i: usize = 0;
        while i < self.entries.len()
            invariant
                i <= self.entries.len(),
                self@.len() == self.entries@.len(),
                forall|j: int|
                    0 <= j < self.entries@.len() ==> #[trigger] self@[j] == (
                        self.entries@[j].0@,
                        self.entries@[j].1@,
                    ),
                pairs@.len() == i,
                forall|j: int| 0 <= j < i ==> (#[trigger] pairs@[j]).0@ == self@[j].0,
                forall|j: int| 0 <= j < i ==> (#[trigger] pairs@[j]).1@ == self@[j].1,
            decreases self.entries.len() - i,
        {
            let entry = &self.entries[i];
            let name = entry.0.clone();
            let value = entry.1.clone();
            pairs.push((name, value));
            i += 1;
        }
        assert(pairs_view(pairs@) =~= self@);
        pairs
    }
}

} // verus!
