//! Labels: a small map from names to values that keeps the order in which
//! the names first came.

use vstd::prelude::*;

verus! {

/// A label as mathematics sees it: a name and a value.
pub type Pair = (Seq<char>, Seq<char>);

/// Where `key` stands in `list`, if it is there.
pub open spec fn position(list: Seq<Pair>, key: Seq<char>) -> Option<int>
    decreases list.len(),
{
    if list.len() == 0 {
        None
    } else if list.last().0 == key {
        Some(list.len() - 1)
    } else {
        position(list.drop_last(), key)
    }
}

/// `list` with `key` set to `value`: in its old place if `key` was there,
/// at the end if it was not.
pub open spec fn put(list: Seq<Pair>, key: Seq<char>, value: Seq<char>) -> Seq<Pair> {
    match position(list, key) {
        Some(i) => list.update(i, (key, value)),
        None => list.push((key, value)),
    }
}

/// `list` with every entry of `more` put into it, in order.
pub open spec fn merged(list: Seq<Pair>, more: Seq<Pair>) -> Seq<Pair>
    decreases more.len(),
{
    if more.len() == 0 {
        list
    } else {
        put(merged(list, more.drop_last()), more.last().0, more.last().1)
    }
}

/// Whether no name occurs twice in `list`.
pub open spec fn distinct(list: Seq<Pair>) -> bool {
    forall|i: int, j: int|
        0 <= i < j < list.len() ==> (#[trigger] list[i]).0 != (#[trigger] list[j]).0
}

/// The map that `list` stands for.
pub open spec fn as_map(list: Seq<Pair>) -> Map<Seq<char>, Seq<char>> {
    Map::new(|key: Seq<char>| position(list, key) is Some, |key: Seq<char>| list[position(list, key)->0].1)
}

/// What `position` finds: a place in the list that holds the name, or
/// nothing if no place holds it.
pub proof fn lemma_position(list: Seq<Pair>, key: Seq<char>)
    ensures
        match position(list, key) {
            Some(i) => 0 <= i < list.len() && list[i].0 == key,
            None => forall|i: int| 0 <= i < list.len() ==> (#[trigger] list[i]).0 != key,
        },
    decreases list.len(),
{
    if list.len() > 0 && list.last().0 != key {
        lemma_position(list.drop_last(), key);
        assert forall|i: int| 0 <= i < list.len() && position(list, key) is None implies (
        #[trigger] list[i]).0 != key by {
            if i < list.len() - 1 {
                assert(list.drop_last()[i] == list[i]);
            }
        }
    }
}

/// In a list without repeated names, a name is found where it stands.
pub proof fn lemma_position_distinct(list: Seq<Pair>, i: int)
    requires
        distinct(list),
        0 <= i < list.len(),
    ensures
        position(list, list[i].0) == Some(i),
{
    lemma_position(list, list[i].0);
}

/// Putting a label keeps the names distinct and sets the map at that name.
pub proof fn lemma_put(list: Seq<Pair>, key: Seq<char>, value: Seq<char>)
    requires
        distinct(list),
    ensures
        distinct(put(list, key, value)),
        as_map(put(list, key, value)) == as_map(list).insert(key, value),
{
    let after = put(list, key, value);
    lemma_position(list, key);
    assert(distinct(after));
    assert forall|k: Seq<char>| #[trigger] as_map(after).dom().contains(k) == as_map(
        list,
    ).insert(key, value).dom().contains(k) by {
        lemma_position(list, k);
        lemma_position(after, k);
        if position(list, k) is Some {
            let i = position(list, k)->0;
            assert(after[i].0 == k);
        }
        if position(after, k) is Some {
            let i = position(after, k)->0;
            if k != key {
                assert(i < list.len());
                assert(list[i].0 == k);
            }
        }
    }
    assert forall|k: Seq<char>| #[trigger]
        as_map(after).dom().contains(k) implies as_map(after)[k] == as_map(list).insert(
        key,
        value,
    )[k] by {
        lemma_position(list, k);
        lemma_position(after, k);
        let i = position(after, k)->0;
        lemma_position_distinct(after, i);
        if k != key {
            assert(list[i] == after[i]);
            lemma_position_distinct(list, i);
        }
    }
    assert(as_map(after) =~= as_map(list).insert(key, value));
}

/// Merging keeps the names distinct; the merged map has the entries of
/// both, and where both have a name, the value of the second.
pub proof fn lemma_merged(list: Seq<Pair>, more: Seq<Pair>)
    requires
        distinct(list),
    ensures
        distinct(merged(list, more)),
        as_map(merged(list, more)) == as_map(list).union_prefer_right(as_map(more)),
    decreases more.len(),
{
    if more.len() == 0 {
        assert(as_map(more) =~= Map::empty());
        assert(as_map(list).union_prefer_right(as_map(more)) =~= as_map(list));
    } else {
        let earlier = more.drop_last();
        let (key, value) = more.last();
        lemma_merged(list, earlier);
        lemma_put(merged(list, earlier), key, value);
        assert forall|k: Seq<char>| #[trigger] as_map(more).dom().contains(k) == (k == key
            || as_map(earlier).dom().contains(k)) by {}
        assert forall|k: Seq<char>| k != key && #[trigger] as_map(more).dom().contains(
            k,
        ) implies as_map(more)[k] == as_map(earlier)[k] by {
            lemma_position(earlier, k);
            assert(earlier[position(earlier, k)->0] == more[position(earlier, k)->0]);
        }
        assert(as_map(merged(list, more)) =~= as_map(list).union_prefer_right(as_map(more)));
    }
}

/// Labels of a log entry or of a resource.
#[derive(Debug, Default, PartialEq, Eq)]
pub struct Labels {
    entries: Vec<(String, String)>,
}

impl View for Labels {
    type V = Seq<Pair>;

    /// The labels as names and values, in the order the names first came.
    closed spec fn view(&self) -> Seq<Pair> {
        self.entries@.map_values(|entry: (String, String)| (entry.0@, entry.1@))
    }
}

impl Clone for Labels {
    fn clone(&self) -> (copy: Labels)
        ensures
            copy@ == self@,
    {
        proof {
            use_type_invariant(self);
        }
        let mut entries: Vec<(String, String)> = Vec::new();
        let mut i: usize = 0;
        while i < self.entries.len()
            invariant
                i <= self.entries.len(),
                entries@ == self.entries@.take(i as int),
            decreases self.entries.len() - i,
        {
            entries.push((self.entries[i].0.clone(), self.entries[i].1.clone()));
            assert(entries@ =~= self.entries@.take(i + 1));
            i = i + 1;
        }
        assert(entries@ =~= self.entries@);
        Labels { entries }
    }
}

impl Labels {
    /// No name occurs twice.
    #[verifier::type_invariant]
    pub open spec fn wf(&self) -> bool {
        distinct(self@)
    }

    /// The labels as a map.
    pub open spec fn map(&self) -> Map<Seq<char>, Seq<char>> {
        as_map(self@)
    }

    /// No labels.
    pub fn new() -> (labels: Labels)
        ensures
            labels@ == Seq::<Pair>::empty(),
            labels.wf(),
    {
        let labels = Labels { entries: Vec::new() };
        assert(labels@ =~= Seq::<Pair>::empty());
        labels
    }

    /// How many labels there are.
    pub fn len(&self) -> (n: usize)
        ensures
            n == self@.len(),
    {
        self.entries.len()
    }

    /// Where `key` stands, if it is there.
    fn find(&self, key: &str) -> (found: Option<usize>)
        ensures
            match found {
                Some(i) => position(self@, key@) == Some(i as int) && i < self@.len(),
                None => position(self@, key@) is None,
            },
    {
        let wanted = key.to_owned();
        let mut i = self.entries.len();
        assert(self@.take(i as int) =~= self@);
        while i > 0
            invariant
                i <= self.entries.len(),
                wanted@ == key@,
                position(self@, key@) == position(self@.take(i as int), key@),
            decreases i,
        {
            i = i - 1;
            if self.entries[i].0 == wanted {
                assert(self@.take(i + 1).last() == self@[i as int]);
                return Some(i);
            }
            assert(self@.take(i + 1).drop_last() =~= self@.take(i as int));
        }
        None
    }

    /// The value of `key`, if it has one.
    pub fn get(&self, key: &str) -> (value: Option<&String>)
        ensures
            match value {
                Some(value) => position(self@, key@) matches Some(i) && self@[i].1 == value@,
                None => position(self@, key@) is None,
            },
    {
        match self.find(key) {
            Some(i) => Some(&self.entries[i].1),
            None => None,
        }
    }

    /// Sets `key` to `value`. A name that was there keeps its place.
    pub fn insert(&mut self, key: String, value: String)
        ensures
            final(self)@ == put(old(self)@, key@, value@),
            final(self).wf(),
            final(self).map() == old(self).map().insert(key@, value@),
    {
        proof {
            use_type_invariant(&*self);
            lemma_put(self@, key@, value@);
        }
        let found = self.find(key.as_str());
        // The entries are taken out, changed and put back as a whole, so
        // that no name occurs twice at any moment.
        let mut taken = Labels::new();
        std::mem::swap(self, &mut taken);
        let Labels { entries: mut entries } = taken;
        match found {
            Some(i) => {
                entries.set(i, (key, value));
            },
            None => {
                entries.push((key, value));
            },
        }
        let ghost after = entries@.map_values(|entry: (String, String)| (entry.0@, entry.1@));
        assert(after =~= put(old(self)@, key@, value@));
        *self = Labels { entries };
    }

    /// Puts every label of `more` into these, in order.
    pub fn extend(&mut self, more: Labels)
        ensures
            final(self)@ == merged(old(self)@, more@),
            final(self).wf(),
            final(self).map() == old(self).map().union_prefer_right(more.map()),
    {
        proof {
            use_type_invariant(&*self);
            lemma_merged(self@, more@);
        }
        let ghost all = more@;
        let entries = more.entries;
        let ghost start = self@;
        let mut i: usize = 0;
        let n = entries.len();
        while i < n
            invariant
                i <= n,
                n == entries.len(),
                all == entries@.map_values(|entry: (String, String)| (entry.0@, entry.1@)),
                self.wf(),
                self@ == merged(start, all.take(i as int)),
            decreases n - i,
        {
            let key = entries[i].0.clone();
            let value = entries[i].1.clone();
            self.insert(key, value);
            proof {
                assert(all.take(i + 1).drop_last() =~= all.take(i as int));
                assert(all.take(i + 1).last() == all[i as int]);
            }
            i = i + 1;
        }
        assert(all.take(n as int) =~= all);
    }

    /// The labels as names and values, in order.
    pub fn entries(&self) -> (entries: &Vec<(String, String)>)
        ensures
            entries@.map_values(|entry: (String, String)| (entry.0@, entry.1@)) == self@,
    {
        &self.entries
    }
}

} // verus!
