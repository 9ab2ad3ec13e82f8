use crate::address::Address;
use vstd::prelude::*;

verus! {

/// A type whose values can stand as keys of a [`Table`]: two keys can be
/// told apart at run time.
pub trait Key: Copy {
    fn same_key(&self, other: &Self) -> (r: bool)
        ensures
            r == (*self == *other),
    ;
}

impl Key for Address {
    fn same_key(&self, other: &Self) -> (r: bool) {
        self.same(other)
    }
}

/// Records kept under keys, at most one record under each key.
pub struct Table<K, R> {
    entries: Vec<(K, R)>,
}

/// Whether some entry of `s` stands under `key`.
spec fn holds<K, R>(s: Seq<(K, R)>, key: K) -> bool {
    exists|i: int| 0 <= i < s.len() && (#[trigger] s[i]).0 == key
}

/// Where in `s` the entry under `key` stands.
spec fn place<K, R>(s: Seq<(K, R)>, key: K) -> int {
    choose|i: int| 0 <= i < s.len() && (#[trigger] s[i]).0 == key
}

/// No two entries of `s` stand under one key.
spec fn distinct<K, R>(s: Seq<(K, R)>) -> bool {
    forall|i: int, j: int| 0 <= i < j < s.len() ==> (#[trigger] s[i]).0 != (#[trigger] s[j]).0
}

/// The map that the entries of `s` make up.
spec fn as_map<K, R>(s: Seq<(K, R)>) -> Map<K, R> {
    Map::new(|key: K| holds(s, key), |key: K| s[place(s, key)].1)
}

proof fn lemma_place<K, R>(s: Seq<(K, R)>, i: int)
    requires
        distinct(s),
        0 <= i < s.len(),
    ensures
        holds(s, s[i].0),
        place(s, s[i].0) == i,
        as_map(s).contains_key(s[i].0),
        as_map(s)[s[i].0] == s[i].1,
{
    let j = place(s, s[i].0);
    assert(0 <= j < s.len() && s[j].0 == s[i].0);
    if j < i {
        assert(s[j].0 != s[i].0);
    } else if i < j {
        assert(s[i].0 != s[j].0);
    }
}

proof fn lemma_holds<K, R>(s: Seq<(K, R)>, key: K)
    requires
        holds(s, key),
    ensures
        0 <= place(s, key) < s.len(),
        s[place(s, key)].0 == key,
{
}

proof fn lemma_push<K, R>(s: Seq<(K, R)>, key: K, record: R)
    requires
        distinct(s),
        !holds(s, key),
    ensures
        distinct(s.push((key, record))),
        as_map(s.push((key, record))) == as_map(s).insert(key, record),
{
    let t = s.push((key, record));
    assert forall|i: int, j: int| 0 <= i < j < t.len() implies (#[trigger] t[i]).0 != (
    #[trigger] t[j]).0 by {
        assert(t[i] == s[i]);
        if j < s.len() {
            assert(t[j] == s[j]);
        }
    }
    assert forall|q: K| as_map(t).contains_key(q) == as_map(s).insert(key, record).contains_key(
        q,
    ) by {
        if holds(t, q) {
            lemma_holds(t, q);
            let i = place(t, q);
            if i < s.len() {
                assert(s[i].0 == q);
            }
        }
        if holds(s, q) {
            lemma_holds(s, q);
            assert(t[place(s, q)].0 == q);
        }
        if q == key {
            assert(t[s.len() as int].0 == q);
        }
    }
    assert forall|q: K| as_map(t).contains_key(q) implies as_map(t)[q] == as_map(s).insert(
        key,
        record,
    )[q] by {
        lemma_holds(t, q);
        let i = place(t, q);
        if i < s.len() {
            assert(s[i].0 == q);
            lemma_place(s, i);
        }
    }
    assert(as_map(t) =~= as_map(s).insert(key, record));
}

proof fn lemma_update<K, R>(s: Seq<(K, R)>, i: int, record: R)
    requires
        distinct(s),
        0 <= i < s.len(),
    ensures
        distinct(s.update(i, (s[i].0, record))),
        as_map(s.update(i, (s[i].0, record))) == as_map(s).insert(s[i].0, record),
{
    let key = s[i].0;
    let t = s.update(i, (key, record));
    assert forall|a: int, b: int| 0 <= a < b < t.len() implies (#[trigger] t[a]).0 != (
    #[trigger] t[b]).0 by {
        assert(t[a].0 == s[a].0);
        assert(t[b].0 == s[b].0);
    }
    assert forall|q: K| as_map(t).contains_key(q) == as_map(s).insert(key, record).contains_key(
        q,
    ) by {
        if holds(t, q) {
            lemma_holds(t, q);
            assert(s[place(t, q)].0 == q);
        }
        if holds(s, q) {
            lemma_holds(s, q);
            assert(t[place(s, q)].0 == q);
        }
        if q == key {
            assert(t[i].0 == q);
        }
    }
    assert forall|q: K| as_map(t).contains_key(q) implies as_map(t)[q] == as_map(s).insert(
        key,
        record,
    )[q] by {
        lemma_holds(t, q);
        let j = place(t, q);
        assert(s[j].0 == q);
        lemma_place(s, j);
    }
    assert(as_map(t) =~= as_map(s).insert(key, record));
}

proof fn lemma_remove<K, R>(s: Seq<(K, R)>, i: int)
    requires
        distinct(s),
        0 <= i < s.len(),
    ensures
        distinct(s.remove(i)),
        as_map(s.remove(i)) == as_map(s).remove(s[i].0),
{
    let key = s[i].0;
    let t = s.remove(i);
    assert forall|a: int, b: int| 0 <= a < b < t.len() implies (#[trigger] t[a]).0 != (
    #[trigger] t[b]).0 by {
        let a0 = if a < i { a } else { a + 1 };
        let b0 = if b < i { b } else { b + 1 };
        assert(t[a] == s[a0]);
        assert(t[b] == s[b0]);
    }
    assert forall|q: K| as_map(t).contains_key(q) == as_map(s).remove(key).contains_key(q) by {
        if holds(t, q) {
            lemma_holds(t, q);
            let a = place(t, q);
            let a0 = if a < i { a } else { a + 1 };
            assert(t[a] == s[a0]);
            assert(s[a0].0 == q);
            lemma_place(s, a0);
            lemma_place(s, i);
        }
        if holds(s, q) && q != key {
            lemma_holds(s, q);
            let a0 = place(s, q);
            let a = if a0 < i { a0 } else { a0 - 1 };
            assert(t[a] == s[a0]);
            assert(t[a].0 == q);
        }
    }
    assert forall|q: K| as_map(t).contains_key(q) implies as_map(t)[q] == as_map(s).remove(key)[q] by {
        lemma_holds(t, q);
        let a = place(t, q);
        let a0 = if a < i { a } else { a + 1 };
        assert(t[a] == s[a0]);
        lemma_place(s, a0);
    }
    assert(as_map(t) =~= as_map(s).remove(key));
}

impl<K: Key, R> View for Table<K, R> {
    type V = Map<K, R>;

    closed spec fn view(&self) -> Map<K, R> {
        as_map(self.entries@)
    }
}

impl<K, R> Table<K, R> {
    #[verifier::type_invariant]
    spec fn one_record_per_key(self) -> bool {
        distinct(self.entries@)
    }
}

impl<K: Key, R> Table<K, R> {
    /// A table without records.
    pub fn new() -> (table: Self)
        ensures
            table@ == Map::<K, R>::empty(),
    {
        let table = Table { entries: Vec::new() };
        assert(table@ =~= Map::<K, R>::empty());
        table
    }

    fn position(&self, key: &K) -> (r: Option<usize>)
        ensures
            match r {
                Some(i) => i < self.entries@.len() && self.entries@[i as int].0 == *key,
                None => !holds(self.entries@, *key),
            },
    {
        let mut i: usize = 0;
        while i < self.entries.len()
            invariant
                0 <= i <= self.entries@.len(),
                forall|j: int| 0 <= j < i ==> (#[trigger] self.entries@[j]).0 != *key,
            decreases self.entries@.len() - i,
        {
            if self.entries[i].0.same_key(key) {
                return Some(i);
            }
            i = i + 1;
        }
        None
    }

    /// Whether a record is kept under `key`.
    pub fn contains(&self, key: &K) -> (r: bool)
        ensures
            r == self@.contains_key(*key),
    {
        proof {
            use_type_invariant(self);
        }
        match self.position(key) {
            Some(i) => {
                proof {
                    lemma_place(self.entries@, i as int);
                }
                true
            },
            None => false,
        }
    }

    /// The record kept under `key`, if there is one.
    pub fn get(&self, key: &K) -> (r: Option<&R>)
        ensures
            match r {
                Some(record) => self@.contains_key(*key) && *record == self@[*key],
                None => !self@.contains_key(*key),
            },
    {
        proof {
            use_type_invariant(self);
        }
        match self.position(key) {
            Some(i) => {
                proof {
                    lemma_place(self.entries@, i as int);
                }
                Some(&self.entries[i].1)
            },
            None => None,
        }
    }

    /// A second table with the same records.
    pub fn duplicate(&self) -> (copy: Self) where R: Copy
        ensures
            copy@ == self@,
    {
        proof {
            use_type_invariant(self);
        }
        let mut entries: Vec<(K, R)> = Vec::new();
        let mut i: usize = 0;
        while i < self.entries.len()
            invariant
                0 <= i <= self.entries@.len(),
                entries@ == self.entries@.subrange(0, i as int),
            decreases self.entries@.len() - i,
        {
            entries.push((self.entries[i].0, self.entries[i].1));
            assert(entries@ =~= self.entries@.subrange(0, i + 1));
            i = i + 1;
        }
        assert(entries@ =~= self.entries@);
        Table { entries }
    }

    /// Keeps `record` under `key`, in place of the record that was there,
    /// if there was one.
    pub fn insert(&mut self, key: K, record: R)
        ensures
            final(self)@ == old(self)@.insert(key, record),
    {
        proof {
            use_type_invariant(&*self);
        }
        let found = self.position(&key);
        let mut entries: Vec<(K, R)> = Vec::new();
        std::mem::swap(&mut self.entries, &mut entries);
        match found {
            Some(i) => {
                proof {
                    lemma_update(entries@, i as int, record);
                }
                entries.set(i, (key, record));
            },
            None => {
                proof {
                    lemma_push(entries@, key, record);
                }
                entries.push((key, record));
            },
        }
        std::mem::swap(&mut self.entries, &mut entries);
    }

    /// Takes out the record kept under `key`, if there is one.
    pub fn remove(&mut self, key: &K) -> (r: Option<R>)
        ensures
            final(self)@ == old(self)@.remove(*key),
            r == if old(self)@.contains_key(*key) {
                Some(old(self)@[*key])
            } else {
                None::<R>
            },
    {
        proof {
            use_type_invariant(&*self);
        }
        match self.position(key) {
            Some(i) => {
                proof {
                    lemma_place(self.entries@, i as int);
                    lemma_remove(self.entries@, i as int);
                }
                let mut entries: Vec<(K, R)> = Vec::new();
                std::mem::swap(&mut self.entries, &mut entries);
                let entry = entries.remove(i);
                std::mem::swap(&mut self.entries, &mut entries);
                Some(entry.1)
            },
            None => {
                assert(self@.remove(*key) =~= self@);
                None
            },
        }
    }
}

} // verus!
