//! Values under string keys, in the order in which the keys came in.

use crate::text::same_text;
use vstd::prelude::*;

verus! {

/// The position of the last entry of `key` in `entries`, or `None` where no
/// entry has that key.
pub open spec fn position_of<T>(entries: Seq<(Seq<char>, T)>, key: Seq<char>) -> Option<int>
    decreases entries.len(),
{
    if entries.len() == 0 {
        None
    } else if entries.last().0 == key {
        Some(entries.len() - 1)
    } else {
        position_of(entries.drop_last(), key)
    }
}

/// `position_of` names an entry of `key` with no entry of `key` behind it,
/// and `None` means that there is none at all.
pub proof fn lemma_position_of<T>(entries: Seq<(Seq<char>, T)>, key: Seq<char>)
    ensures
        match position_of(entries, key) {
            Some(at) => {
                &&& 0 <= at < entries.len()
                &&& entries[at].0 == key
                &&& forall|k: int| at < k < entries.len() ==> (#[trigger] entries[k]).0 != key
            },
            None => forall|k: int| 0 <= k < entries.len() ==> (#[trigger] entries[k]).0 != key,
        },
    decreases entries.len(),
{
    if entries.len() > 0 && entries.last().0 != key {
        let front = entries.drop_last();
        lemma_position_of(front, key);
        assert forall|k: int| 0 <= k < front.len() implies front[k] == entries[k] by {}
        match position_of(front, key) {
            Some(at) => {
                assert forall|k: int| at < k < entries.len() implies (#[trigger] entries[k]).0
                    != key by {
                    if k < front.len() {
                        assert(front[k].0 != key);
                    }
                }
            },
            None => {
                assert forall|k: int| 0 <= k < entries.len() implies (#[trigger] entries[k]).0
                    != key by {
                    if k < front.len() {
                        assert(front[k].0 != key);
                    }
                }
            },
        }
    }
}

/// No key occurs twice in `entries`.
pub open spec fn distinct_keys<T>(entries: Seq<(Seq<char>, T)>) -> bool {
    forall|i: int, j: int|
        0 <= i < j < entries.len() ==> (#[trigger] entries[i]).0 != (#[trigger] entries[j]).0
}

/// `entries` with `value` under `key`: in place of what stood under it, or
/// else behind the last entry.
pub open spec fn put<T>(entries: Seq<(Seq<char>, T)>, key: Seq<char>, value: T) -> Seq<
    (Seq<char>, T),
> {
    match position_of(entries, key) {
        Some(at) => entries.update(at, (key, value)),
        None => entries.push((key, value)),
    }
}

/// The entries as a map from key to value.
pub open spec fn as_map<T>(entries: Seq<(Seq<char>, T)>) -> Map<Seq<char>, T> {
    Map::new(
        |key: Seq<char>| position_of(entries, key) is Some,
        |key: Seq<char>| entries[position_of(entries, key)->0].1,
    )
}

/// `put` keeps the keys distinct.
pub proof fn lemma_put_distinct<T>(entries: Seq<(Seq<char>, T)>, key: Seq<char>, value: T)
    requires
        distinct_keys(entries),
    ensures
        distinct_keys(put(entries, key, value)),
{
    lemma_position_of(entries, key);
}

/// `put` on the entries is `insert` on the map.
pub proof fn lemma_put_as_map<T>(entries: Seq<(Seq<char>, T)>, key: Seq<char>, value: T)
    requires
        distinct_keys(entries),
    ensures
        as_map(put(entries, key, value)) == as_map(entries).insert(key, value),
{
    let after = put(entries, key, value);
    lemma_position_of(entries, key);
    assert forall|other: Seq<char>|
        position_of(after, other) is Some <==> (other == key || position_of(
            entries,
            other,
        ) is Some) by {
        lemma_position_of(entries, other);
        lemma_position_of(after, other);
        if position_of(entries, other) is Some {
            let k = position_of(entries, other)->0;
            assert(after[k].0 == other);
        }
        if position_of(after, other) is Some {
            let k = position_of(after, other)->0;
            assert(after[k].0 == key || entries[k].0 == other);
        }
        if other == key {
            if position_of(entries, key) is Some {
                assert(after[position_of(entries, key)->0].0 == key);
            } else {
                assert(after[entries.len() as int].0 == key);
            }
        }
    }
    assert forall|other: Seq<char>| #[trigger]
        as_map(after).contains_key(other) implies as_map(after)[other] == as_map(entries).insert(
        key,
        value,
    )[other] by {
        lemma_position_of(entries, other);
        lemma_position_of(after, other);
        lemma_put_distinct(entries, key, value);
        let k = position_of(after, other)->0;
        if other != key {
            let b = position_of(entries, other)->0;
            assert(after[b].0 == other);
        } else if position_of(entries, key) is Some {
            assert(after[position_of(entries, key)->0].0 == key);
        } else {
            assert(after[entries.len() as int].0 == key);
        }
    }
    assert(as_map(after) =~= as_map(entries).insert(key, value));
}

/// Values under string keys. No key occurs twice, and the entries keep the
/// order in which their keys first came in, so that what is derived from the
/// map comes out in a fixed order.
#[derive(Debug, PartialEq, Eq)]
pub struct StringMap<T: View> {
    entries: Vec<(String, T)>,
}

/// The entries with each key taken by its characters and each value by its view.
spec fn by_view<T: View>(entries: Seq<(String, T)>) -> Seq<(Seq<char>, T::V)> {
    Seq::new(entries.len(), |i: int| (entries[i].0@, entries[i].1@))
}

impl<T: View> View for StringMap<T> {
    type V = Seq<(Seq<char>, T::V)>;

    /// The entries in order: the characters of the key and the view of the value.
    closed spec fn view(&self) -> Seq<(Seq<char>, T::V)> {
        by_view(self.entries@)
    }
}

impl<T: View> StringMap<T> {
    /// No key occurs twice.
    pub open spec fn wf(&self) -> bool {
        distinct_keys(self@)
    }

    #[verifier::type_invariant]
    closed spec fn inv(&self) -> bool {
        self.wf()
    }

    /// The empty map.
    pub fn new() -> (map: Self)
        ensures
            map@ == Seq::<(Seq<char>, T::V)>::empty(),
            map.wf(),
    {
        let map = StringMap { entries: Vec::new() };
        assert(map@ =~= Seq::<(Seq<char>, T::V)>::empty());
        map
    }

    /// The number of entries.
    pub fn len(&self) -> (n: usize)
        ensures
            n == self@.len(),
    {
        self.entries.len()
    }

    /// The entry at position `i`: the key and the value.
    pub fn entry(&self, i: usize) -> (entry: (&String, &T))
        requires
            i < self@.len(),
        ensures
            entry.0@ == self@[i as int].0,
            entry.1@ == self@[i as int].1,
    {
        (&self.entries[i].0, &self.entries[i].1)
    }

    /// The position of the entry of `key`.
    pub fn find(&self, key: &str) -> (at: Option<usize>)
        ensures
            match at {
                Some(i) => position_of(self@, key@) == Some(i as int),
                None => position_of(self@, key@) is None,
            },
    {
        let mut found: Option<usize> = None;
        let mut i: usize = 0;
        while i < self.entries.len()
            invariant
                i <= self.entries.len(),
                match found {
                    Some(k) => position_of(self@.take(i as int), key@) == Some(k as int),
                    None => position_of(self@.take(i as int), key@) is None,
                },
            decreases self.entries.len() - i,
        {
            assert(self@.take(i + 1).drop_last() =~= self@.take(i as int));
            if same_text(self.entries[i].0.as_str(), key) {
                found = Some(i);
            }
            i += 1;
        }
        assert(self@.take(i as int) =~= self@);
        found
    }

    /// The value under `key`.
    pub fn get(&self, key: &str) -> (value: Option<&T>)
        ensures
            match value {
                Some(v) => as_map(self@).contains_key(key@) && as_map(self@)[key@] == v@,
                None => !as_map(self@).contains_key(key@),
            },
    {
        proof {
            lemma_position_of(self@, key@);
        }
        match self.find(key) {
            Some(i) => Some(&self.entries[i].1),
            None => None,
        }
    }

    /// Puts `value` under `key`: in place of what stood under it, or else
    /// behind the last entry.
    pub fn insert(&mut self, key: String, value: T)
        ensures
            final(self).wf(),
            final(self)@ == put(old(self)@, key@, value@),
            as_map(final(self)@) == as_map(old(self)@).insert(key@, value@),
    {
        proof {
            use_type_invariant(&*self);
            lemma_position_of(self@, key@);
            lemma_put_distinct(self@, key@, value@);
            lemma_put_as_map(self@, key@, value@);
        }
        let at = self.find(key.as_str());
        let mut entries: Vec<(String, T)> = Vec::new();
        core::mem::swap(&mut self.entries, &mut entries);
        assert(self@ =~= Seq::<(Seq<char>, T::V)>::empty());
        match at {
            Some(i) => {
                entries.set(i, (key, value));
            },
            None => {
                entries.push((key, value));
            },
        }
        assert(by_view(entries@) =~= put(old(self)@, key@, value@));
        core::mem::swap(&mut self.entries, &mut entries);
    }
}

} // verus!
