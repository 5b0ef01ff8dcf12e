//! The properties that a notification carries.

use crate::text::same_text;
use vstd::prelude::*;

verus! {

/// The changed properties of one notification: property name to new value.
///
/// No name occurs twice. The view is the map from names to values.
#[derive(Debug)]
pub struct PropertyMap {
    entries: Vec<(String, String)>,
}

impl View for PropertyMap {
    type V = Map<Seq<char>, Seq<char>>;

    closed spec fn view(&self) -> Map<Seq<char>, Seq<char>> {
        map_of(self.entries@)
    }
}

impl PropertyMap {
    spec fn names(&self) -> Seq<Seq<char>> {
        names_of(self.entries@)
    }

    #[verifier::type_invariant]
    spec fn names_are_distinct(&self) -> bool {
        self.names().no_duplicates()
    }

    /// A map without properties.
    pub fn new() -> (map: Self)
        ensures
            map@ == Map::<Seq<char>, Seq<char>>::empty(),
    {
        PropertyMap { entries: Vec::new() }
    }

    /// Where `name` stands among the entries.
    fn position(&self, name: &str) -> (found: Option<usize>)
        ensures
            match found {
                Some(at) => at < self.entries@.len() && self.names()[at as int] == name@,
                None => !self.names().contains(name@),
            },
    {
        let mut at: usize = 0;
        while at < self.entries.len()
            invariant
                at <= self.entries@.len(),
                forall|k: int| 0 <= k < at ==> self.names()[k] != name@,
            decreases self.entries@.len() - at,
        {
            if same_text(self.entries[at].0.as_str(), name) {
                return Some(at);
            }
            at += 1;
        }
        None
    }

    /// The value of the property called exactly `name`, if the map has one.
    pub fn get(&self, name: &str) -> (value: Option<&String>)
        ensures
            match value {
                Some(text) => self@.contains_key(name@) && self@[name@] == text@,
                None => !self@.contains_key(name@),
            },
    {
        proof {
            use_type_invariant(self);
        }
        match self.position(name) {
            Some(at) => {
                Some(&self.entries[at].1)
            },
            None => None,
        }
    }

    /// Sets the property `name` to `value` and returns the value it had.
    pub fn insert(&mut self, name: String, value: String) -> (previous: Option<String>)
        ensures
            final(self)@ == old(self)@.insert(name@, value@),
            match previous {
                Some(text) => old(self)@.contains_key(name@) && old(self)@[name@] == text@,
                None => !old(self)@.contains_key(name@),
            },
    {
        proof {
            use_type_invariant(&*self);
        }
        let found = self.position(name.as_str());
        let mut entries: Vec<(String, String)> = Vec::new();
        core::mem::swap(&mut self.entries, &mut entries);
        match found {
            Some(at) => {
                proof {
                    lemma_updated(entries@, at as int, (name, value));
                }
                let held = entries.remove(at);
                entries.insert(at, (name, value));
                assert(entries@ =~= old(self).entries@.update(at as int, (name, value)));
                self.entries = entries;
                Some(held.1)
            },
            None => {
                proof {
                    lemma_pushed(entries@, (name, value));
                }
                entries.push((name, value));
                self.entries = entries;
                None
            },
        }
    }

    /// The map that `entries` stand for: where a name occurs more than
    /// once, its last value holds.
    pub fn from_entries(entries: Vec<(String, String)>) -> (map: Self)
        ensures
            map@ == collected(entry_texts(entries@)),
    {
        let ghost all = entries@;
        let mut map = PropertyMap::new();
        for entry in pairs: entries
            invariant
                pairs.seq() == all,
                map@ == collected(entry_texts(all.take(pairs.index() as int))),
        {
            proof {
                let upto = all.take(pairs.index() as int + 1);
                assert(upto.drop_last() =~= all.take(pairs.index() as int));
                assert(entry_texts(upto).drop_last() =~= entry_texts(upto.drop_last()));
            }
            map.insert(entry.0, entry.1);
        }
        assert(all.take(all.len() as int) =~= all);
        map
    }

    /// How many properties the map holds.
    pub fn len(&self) -> (count: usize)
        ensures
            self@.dom().finite(),
            count == self@.len(),
    {
        proof {
            use_type_invariant(self);
            lemma_counted(self.entries@);
        }
        self.entries.len()
    }

    /// Whether the map holds no property at all.
    pub fn is_empty(&self) -> (empty: bool)
        ensures
            empty == (self@ == Map::<Seq<char>, Seq<char>>::empty()),
    {
        proof {
            if self.entries@.len() == 0 {
                assert(self@ =~= Map::<Seq<char>, Seq<char>>::empty());
            } else {
                assert(names_of(self.entries@)[0] == self.entries@[0].0@);
                assert(self@.contains_key(self.entries@[0].0@));
            }
        }
        self.entries.is_empty()
    }

    /// Whether the map has a property called exactly `name`.
    pub fn contains_key(&self, name: &str) -> (present: bool)
        ensures
            present == self@.contains_key(name@),
    {
        self.position(name).is_some()
    }
}

impl Clone for PropertyMap {
    fn clone(&self) -> (copy: Self)
        ensures
            copy@ == self@,
    {
        proof {
            use_type_invariant(self);
        }
        let mut entries: Vec<(String, String)> = Vec::new();
        let mut at: usize = 0;
        while at < self.entries.len()
            invariant
                at <= self.entries@.len(),
                entries@ == self.entries@.take(at as int),
            decreases self.entries@.len() - at,
        {
            let name = self.entries[at].0.clone();
            let value = self.entries[at].1.clone();
            entries.push((name, value));
            at += 1;
        }
        assert(entries@ =~= self.entries@);
        PropertyMap { entries }
    }
}

/// The map that a list of `(name, value)` pairs stands for: a later pair
/// replaces an earlier one of the same name.
pub open spec fn collected(entries: Seq<(Seq<char>, Seq<char>)>) -> Map<Seq<char>, Seq<char>>
    decreases entries.len(),
{
    if entries.len() == 0 {
        Map::empty()
    } else {
        collected(entries.drop_last()).insert(entries.last().0, entries.last().1)
    }
}

/// The pairs of `entries`, each text taken as its characters.
pub open spec fn entry_texts(entries: Seq<(String, String)>) -> Seq<(Seq<char>, Seq<char>)> {
    entries.map_values(|entry: (String, String)| (entry.0@, entry.1@))
}

/// The names of `entries`, in their order.
spec fn names_of(entries: Seq<(String, String)>) -> Seq<Seq<char>> {
    entries.map_values(|entry: (String, String)| entry.0@)
}

/// The map from each name of `entries` to the value beside it.
spec fn map_of(entries: Seq<(String, String)>) -> Map<Seq<char>, Seq<char>> {
    Map::new(
        |name: Seq<char>| names_of(entries).contains(name),
        |name: Seq<char>| entries[names_of(entries).index_of(name)].1@,
    )
}

/// Adding a pair under a new name adds that name to the map.
proof fn lemma_pushed(entries: Seq<(String, String)>, entry: (String, String))
    requires
        names_of(entries).no_duplicates(),
        !names_of(entries).contains(entry.0@),
    ensures
        names_of(entries.push(entry)).no_duplicates(),
        map_of(entries.push(entry)) == map_of(entries).insert(entry.0@, entry.1@),
{
    let longer = entries.push(entry);
    assert(names_of(longer) =~= names_of(entries).push(entry.0@));
    assert forall|name: Seq<char>| names_of(entries).contains(name) implies names_of(longer).contains(name)
        && longer[names_of(longer).index_of(name)] == entries[names_of(entries).index_of(name)] by {
        let at: int = names_of(entries).index_of(name);
        assert(names_of(longer)[at] == name);
    }
    assert(names_of(longer)[entries.len() as int] == entry.0@);
}

/// A list without repeated names stands for a map of as many entries.
proof fn lemma_counted(entries: Seq<(String, String)>)
    requires
        names_of(entries).no_duplicates(),
    ensures
        map_of(entries).dom().finite(),
        map_of(entries).len() == entries.len(),
{
    let names = names_of(entries);
    vstd::seq_lib::seq_to_set_is_finite(names);
    names.unique_seq_to_set();
}

/// Replacing the value beside a name changes the map at that name only.
proof fn lemma_updated(entries: Seq<(String, String)>, at: int, entry: (String, String))
    requires
        names_of(entries).no_duplicates(),
        0 <= at < entries.len(),
        names_of(entries)[at] == entry.0@,
    ensures
        names_of(entries.update(at, entry)) == names_of(entries),
        map_of(entries.update(at, entry)) == map_of(entries).insert(entry.0@, entry.1@),
{
    let changed = entries.update(at, entry);
    assert(names_of(changed) =~= names_of(entries));
}

} // verus!
