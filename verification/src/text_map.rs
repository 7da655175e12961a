//! A map whose keys are strings, such as the labels of a pod.
use crate::text::same_text;
use vstd::prelude::*;

verus! {

/// A map from strings to values, kept as a list of entries.
///
/// Invariant: no key occurs twice in the list.
#[derive(Debug)]
pub struct TextMap<V: View> {
    entries: Vec<(String, V)>,
}

/// The labels or the annotations of a pod.
pub type LabelMap = TextMap<String>;

/// Whether no key occurs twice in `entries`.
pub open spec fn distinct_keys<V: View>(entries: Seq<(String, V)>) -> bool {
    forall|i: int, j: int|
        0 <= i < j < entries.len() ==> (#[trigger] entries[i]).0@ != (#[trigger] entries[j]).0@
}

/// The map that a list of entries stands for.
pub open spec fn entries_map<V: View>(entries: Seq<(String, V)>) -> Map<Seq<char>, V::V>
    decreases entries.len(),
{
    if entries.len() == 0 {
        Map::empty()
    } else {
        entries_map(entries.drop_last()).insert(entries.last().0@, entries.last().1@)
    }
}

proof fn lemma_entries_map<V: View>(entries: Seq<(String, V)>)
    requires
        distinct_keys(entries),
    ensures
        forall|i: int|
            0 <= i < entries.len() ==> entries_map(entries).contains_key(
                (#[trigger] entries[i]).0@,
            ) && entries_map(entries)[entries[i].0@] == entries[i].1@,
        forall|key: Seq<char>| #[trigger]
            entries_map(entries).contains_key(key) ==> exists|i: int|
                0 <= i < entries.len() && (#[trigger] entries[i]).0@ == key,
    decreases entries.len(),
{
    if entries.len() > 0 {
        let front = entries.drop_last();
        assert(forall|i: int| 0 <= i < front.len() ==> front[i] == entries[i]);
        lemma_entries_map(front);
        assert forall|i: int| 0 <= i < entries.len() implies entries_map(entries).contains_key(
            (#[trigger] entries[i]).0@,
        ) && entries_map(entries)[entries[i].0@] == entries[i].1@ by {
            if i < front.len() {
                assert(front[i] == entries[i]);
            }
        }
        assert forall|key: Seq<char>| #[trigger]
            entries_map(entries).contains_key(key) implies exists|i: int|
            0 <= i < entries.len() && (#[trigger] entries[i]).0@ == key by {
            if key == entries.last().0@ {
                assert(entries[entries.len() - 1].0@ == key);
            } else {
                assert(entries_map(front).contains_key(key));
                let i = choose|i: int| 0 <= i < front.len() && (#[trigger] front[i]).0@ == key;
                assert(entries[i].0@ == key);
            }
        }
    }
}

impl<V: View> View for TextMap<V> {
    type V = Map<Seq<char>, V::V>;

    closed spec fn view(&self) -> Map<Seq<char>, V::V> {
        entries_map(self.entries@)
    }
}

impl<V: View> DeepView for TextMap<V> {
    type V = Map<Seq<char>, V::V>;

    open spec fn deep_view(&self) -> Map<Seq<char>, V::V> {
        self@
    }
}

impl<V: View> TextMap<V> {
    #[verifier::type_invariant]
    spec fn keys_are_distinct(self) -> bool {
        distinct_keys(self.entries@)
    }

    /// The empty map.
    pub fn new() -> (map: Self)
        ensures
            map@ == Map::<Seq<char>, V::V>::empty(),
    {
        TextMap { entries: Vec::new() }
    }

    /// The entries of the map, each key once.
    pub fn entries(&self) -> (entries: &Vec<(String, V)>)
        ensures
            distinct_keys(entries@),
            entries_map(entries@) == self@,
    {
        proof {
            use_type_invariant(self);
        }
        &self.entries
    }

    fn position(&self, key: &str) -> (at: Option<usize>)
        ensures
            match at {
                Some(i) => i < self.entries@.len() && self.entries@[i as int].0@ == key@,
                None => forall|j: int|
                    0 <= j < self.entries@.len() ==> (#[trigger] self.entries@[j]).0@ != key@,
            },
    {
        let mut i: usize = 0;
        while i < self.entries.len()
            invariant
                i <= self.entries@.len(),
                forall|j: int| 0 <= j < i ==> (#[trigger] self.entries@[j]).0@ != key@,
            decreases self.entries@.len() - i,
        {
            if same_text(self.entries[i].0.as_str(), key) {
                return Some(i);
            }
            i = i + 1;
        }
        None
    }

    /// The value stored for `key`.
    pub fn get(&self, key: &str) -> (value: Option<&V>)
        ensures
            match value {
                Some(v) => self@.contains_key(key@) && self@[key@] == v@,
                None => !self@.contains_key(key@),
            },
    {
        proof {
            use_type_invariant(self);
            lemma_entries_map(self.entries@);
        }
        match self.position(key) {
            Some(i) => Some(&self.entries[i].1),
            None => None,
        }
    }

    /// Whether something is stored for `key`.
    pub fn contains_key(&self, key: &str) -> (found: bool)
        ensures
            found == self@.contains_key(key@),
    {
        self.get(key).is_some()
    }

    /// Stores `value` for `key`, in place of what was stored for it before.
    pub fn insert(&mut self, key: String, value: V)
        ensures
            final(self)@ == old(self)@.insert(key@, value@),
    {
        proof {
            use_type_invariant(&*self);
            lemma_entries_map(self.entries@);
        }
        let at = self.position(key.as_str());
        let ghost before = self.entries@;
        let mut entries: Vec<(String, V)> = Vec::new();
        std::mem::swap(&mut entries, &mut self.entries);
        match at {
            Some(i) => {
                entries.set(i, (key, value));
            },
            None => {
                entries.push((key, value));
            },
        }
        proof {
            assert(distinct_keys(entries@)) by {
                assert forall|i: int, j: int| 0 <= i < j < entries@.len() implies (
                #[trigger] entries@[i]).0@ != (#[trigger] entries@[j]).0@ by {
                    if i < before.len() {
                        assert(before[i].0@ == entries@[i].0@);
                    }
                    if j < before.len() {
                        assert(before[j].0@ == entries@[j].0@);
                    }
                }
            }
            lemma_entries_map(entries@);
            let updated = entries_map(before).insert(key@, value@);
            let k: int = match at {
                Some(i) => i as int,
                None => before.len() as int,
            };
            assert(entries@[k] == (key, value));
            let after = entries_map(entries@);
            assert forall|x: Seq<char>|
                #![trigger after.dom().contains(x)]
                #![trigger updated.dom().contains(x)]
                after.dom().contains(x) == updated.dom().contains(x) && (updated.dom().contains(x)
                    ==> after[x] == updated[x]) by {
                if after.contains_key(x) {
                    let i = choose|i: int|
                        0 <= i < entries@.len() && (#[trigger] entries@[i]).0@ == x;
                    if i != k {
                        assert(before[i] == entries@[i]);
                    }
                }
                if entries_map(before).contains_key(x) {
                    let i = choose|i: int| 0 <= i < before.len() && (#[trigger] before[i]).0@ == x;
                    if i != k {
                        assert(before[i] == entries@[i]);
                    }
                }
            }
            assert(after =~= updated);
        }
        self.entries = entries;
    }

    /// Takes out what is stored for `key`.
    pub fn remove(&mut self, key: &str)
        ensures
            final(self)@ == old(self)@.remove(key@),
    {
        proof {
            use_type_invariant(&*self);
            lemma_entries_map(self.entries@);
        }
        let at = self.position(key);
        let ghost before = self.entries@;
        let mut entries: Vec<(String, V)> = Vec::new();
        std::mem::swap(&mut entries, &mut self.entries);
        match at {
            Some(i) => {
                entries.remove(i);
            },
            None => {},
        }
        proof {
            let k: int = match at {
                Some(i) => i as int,
                None => before.len() as int,
            };
            assert(forall|i: int| 0 <= i < entries@.len() && i < k ==> entries@[i] == before[i]);
            assert(forall|i: int|
                0 <= i < entries@.len() && i >= k ==> entries@[i] == before[i + 1]);
            assert(distinct_keys(entries@));
            lemma_entries_map(entries@);
            let updated = entries_map(before).remove(key@);
            let after = entries_map(entries@);
            assert forall|x: Seq<char>|
                #![trigger after.dom().contains(x)]
                #![trigger updated.dom().contains(x)]
                after.dom().contains(x) == updated.dom().contains(x) && (updated.dom().contains(x)
                    ==> after[x] == updated[x]) by {
                if after.contains_key(x) {
                    let i = choose|i: int|
                        0 <= i < entries@.len() && (#[trigger] entries@[i]).0@ == x;
                    let j = if i < k {
                        i
                    } else {
                        i + 1
                    };
                    assert(before[j] == entries@[i]);
                }
                if updated.contains_key(x) {
                    let j = choose|j: int| 0 <= j < before.len() && (#[trigger] before[j]).0@ == x;
                    let i = if j < k {
                        j
                    } else {
                        j - 1
                    };
                    assert(before[j] == entries@[i]);
                }
            }
            assert(after =~= updated);
        }
        self.entries = entries;
    }
}

impl Clone for TextMap<String> {
    fn clone(&self) -> (copy: Self)
        ensures
            copy@ == self@,
    {
        proof {
            use_type_invariant(self);
        }
        let mut entries: Vec<(String, String)> = Vec::new();
        let mut i: usize = 0;
        while i < self.entries.len()
            invariant
                i <= self.entries@.len(),
                entries@ == self.entries@.take(i as int),
            decreases self.entries@.len() - i,
        {
            entries.push((self.entries[i].0.clone(), self.entries[i].1.clone()));
            assert(entries@ =~= self.entries@.take(i + 1));
            i = i + 1;
        }
        assert(entries@ =~= self.entries@);
        TextMap { entries }
    }
}

} // verus!
