//! A small table keyed by text, in the order in which its keys first came.
//!
//! No key occurs twice. A key that is bound again keeps its place; a new
//! key goes to the end, so the first entry is always the oldest.

use vstd::prelude::*;
use crate::text::same_text;

verus! {

/// Where `key` stands in `entries`, if it occurs.
pub open spec fn position<T>(entries: Seq<(Seq<char>, T)>, key: Seq<char>) -> Option<int> {
    if exists|i: int| 0 <= i < entries.len() && (#[trigger] entries[i]).0 == key {
        Some(choose|i: int| 0 <= i < entries.len() && (#[trigger] entries[i]).0 == key)
    } else {
        None
    }
}

/// What `key` is bound to in `entries`, if it occurs.
pub open spec fn lookup<T>(entries: Seq<(Seq<char>, T)>, key: Seq<char>) -> Option<T> {
    match position(entries, key) {
        Some(i) => Some(entries[i].1),
        None => None,
    }
}

/// `entries` with `key` bound to `value`: in its old place if it occurred,
/// at the end if not.
pub open spec fn put<T>(entries: Seq<(Seq<char>, T)>, key: Seq<char>, value: T) -> Seq<(Seq<char>, T)> {
    match position(entries, key) {
        Some(i) => entries.update(i, (key, value)),
        None => entries.push((key, value)),
    }
}

/// `entries` without the entry of `key`.
pub open spec fn without<T>(entries: Seq<(Seq<char>, T)>, key: Seq<char>) -> Seq<(Seq<char>, T)> {
    match position(entries, key) {
        Some(i) => entries.remove(i),
        None => entries,
    }
}

/// No key occurs twice in `entries`.
pub open spec fn keys_distinct<T>(entries: Seq<(Seq<char>, T)>) -> bool {
    forall|i: int, j: int|
        0 <= i < j < entries.len() ==> (#[trigger] entries[i]).0 != (#[trigger] entries[j]).0
}

/// A table from text keys to values of type `V`.
pub struct Table<V> {
    keys: Vec<String>,
    values: Vec<V>,
}

impl<V: View> View for Table<V> {
    type V = Seq<(Seq<char>, V::V)>;

    closed spec fn view(&self) -> Seq<(Seq<char>, V::V)> {
        Seq::new(self.keys@.len(), |i: int| (self.keys@[i]@, self.values@[i]@))
    }
}

impl<V> Table<V> {
    #[verifier::type_invariant]
    spec fn inv(self) -> bool {
        &&& self.keys@.len() == self.values@.len()
        &&& forall|i: int, j: int|
            0 <= i < j < self.keys@.len() ==> (#[trigger] self.keys@[i])@ != (#[trigger] self.keys@[j])@
    }
}

impl<V: View> Table<V> {

    /// Does nothing; tells the caller that the keys of the table are
    /// distinct.
    pub fn keys_are_distinct(&self)
        ensures
            keys_distinct(self@),
    {
        proof {
            use_type_invariant(self);
        }
    }

    /// A table that binds no key.
    pub fn new() -> (r: Self)
        ensures
            r@ == Seq::<(Seq<char>, V::V)>::empty(),
    {
        let r = Table { keys: Vec::new(), values: Vec::new() };
        assert(r@ =~= Seq::<(Seq<char>, V::V)>::empty());
        r
    }

    /// How many keys the table binds.
    pub fn len(&self) -> (n: usize)
        ensures
            n == self@.len(),
    {
        self.keys.len()
    }

    /// Where `key` stands, if the table binds it.
    fn find(&self, key: &str) -> (r: Option<usize>)
        ensures
            match r {
                Some(i) => position(self@, key@) == Some(i as int) && i < self.keys@.len() && self.keys@[i as int]@
                    == key@,
                None => position(self@, key@) is None,
            },
    {
        proof {
            use_type_invariant(self);
        }
        let mut i: usize = 0;
        while i < self.keys.len()
            invariant
                i <= self.keys@.len(),
                forall|j: int| 0 <= j < i ==> (#[trigger] self.keys@[j])@ != key@,
            decreases self.keys@.len() - i,
        {
            if same_text(self.keys[i].as_str(), key) {
                proof {
                    use_type_invariant(self);
                    assert(self@[i as int].0 == key@);
                    let c = choose|c: int| 0 <= c < self@.len() && (#[trigger] self@[c]).0 == key@;
                    assert(self@[c].0 == self.keys@[c]@);
                    assert(c == i);
                }
                return Some(i);
            }
            i = i + 1;
        }
        proof {
            assert forall|c: int| 0 <= c < self@.len() implies (#[trigger] self@[c]).0 != key@ by {
                assert(self@[c].0 == self.keys@[c]@);
            }
        }
        None
    }

    /// Whether the table binds `key`.
    pub fn contains_key(&self, key: &str) -> (r: bool)
        ensures
            r == lookup(self@, key@).is_some(),
    {
        self.find(key).is_some()
    }

    /// What `key` is bound to, if the table binds it.
    pub fn get(&self, key: &str) -> (r: Option<&V>)
        ensures
            match r {
                Some(v) => lookup(self@, key@) == Some(v@),
                None => lookup(self@, key@) is None,
            },
    {
        proof {
            use_type_invariant(self);
        }
        match self.find(key) {
            Some(i) => Some(&self.values[i]),
            None => None,
        }
    }

    /// Binds `key` to `value`.
    pub fn insert(&mut self, key: String, value: V)
        ensures
            final(self)@ == put(old(self)@, key@, value@),
    {
        let found = self.find(key.as_str());
        let mut taken = Table { keys: Vec::new(), values: Vec::new() };
        core::mem::swap(self, &mut taken);
        proof {
            use_type_invariant(&taken);
        }
        let Table { mut keys, mut values } = taken;
        match found {
            Some(i) => {
                values.set(i, value);
            },
            None => {
                assert forall|c: int| 0 <= c < keys@.len() implies (#[trigger] keys@[c])@ != key@ by {
                    assert(old(self)@[c].0 == keys@[c]@);
                }
                keys.push(key);
                values.push(value);
            },
        }
        *self = Table { keys, values };
        assert(self@ =~= put(old(self)@, key@, value@));
    }

    /// Unbinds `key` and hands out what it was bound to.
    pub fn remove(&mut self, key: &str) -> (r: Option<V>)
        ensures
            final(self)@ == without(old(self)@, key@),
            match r {
                Some(v) => lookup(old(self)@, key@) == Some(v@),
                None => lookup(old(self)@, key@) is None,
            },
    {
        let found = self.find(key);
        let mut taken = Table { keys: Vec::new(), values: Vec::new() };
        core::mem::swap(self, &mut taken);
        proof {
            use_type_invariant(&taken);
        }
        let Table { mut keys, mut values } = taken;
        let r = match found {
            Some(i) => {
                keys.remove(i);
                Some(values.remove(i))
            },
            None => None,
        };
        *self = Table { keys, values };
        assert(self@ =~= without(old(self)@, key@));
        r
    }

    /// Takes the oldest entry out of the table, if there is one.
    pub fn pop_first(&mut self) -> (r: Option<(String, V)>)
        ensures
            match r {
                Some((k, v)) => old(self)@.len() > 0 && (k@, v@) == old(self)@[0] && final(self)@ == old(
                    self,
                )@.drop_first(),
                None => old(self)@.len() == 0 && final(self)@ == old(self)@,
            },
    {
        let mut taken = Table { keys: Vec::new(), values: Vec::new() };
        core::mem::swap(self, &mut taken);
        proof {
            use_type_invariant(&taken);
        }
        let Table { mut keys, mut values } = taken;
        let r = if keys.len() == 0 {
            None
        } else {
            let k = keys.remove(0);
            let v = values.remove(0);
            Some((k, v))
        };
        *self = Table { keys, values };
        assert(r is Some ==> self@ =~= old(self)@.drop_first());
        assert(r is None ==> self@ =~= old(self)@);
        r
    }

    /// Takes every entry out of the table, oldest first.
    pub fn take_all(&mut self) -> (r: (Vec<String>, Vec<V>))
        ensures
            final(self)@ == Seq::<(Seq<char>, V::V)>::empty(),
            r.0@.len() == old(self)@.len(),
            r.1@.len() == old(self)@.len(),
            forall|i: int| 0 <= i < old(self)@.len() ==> (#[trigger] r.0@[i])@ == old(self)@[i].0,
            forall|i: int| 0 <= i < old(self)@.len() ==> (#[trigger] r.1@[i])@ == old(self)@[i].1,
    {
        let mut taken = Table { keys: Vec::new(), values: Vec::new() };
        core::mem::swap(self, &mut taken);
        proof {
            use_type_invariant(&taken);
        }
        let Table { keys, values } = taken;
        assert(self@ =~= Seq::<(Seq<char>, V::V)>::empty());
        (keys, values)
    }

    /// Unbinds every key.
    pub fn clear(&mut self)
        ensures
            final(self)@ == Seq::<(Seq<char>, V::V)>::empty(),
    {
        *self = Table { keys: Vec::new(), values: Vec::new() };
        assert(self@ =~= Seq::<(Seq<char>, V::V)>::empty());
    }
}

} // verus!
