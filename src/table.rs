use crate::address::Address;
use vstd::prelude::*;

verus! {

/// Rows keyed by address, at most one row per address.
pub struct Table<T> {
    pub rows: Vec<(Address, T)>,
}

/// No address occurs in two rows.
pub open spec fn unique_keys<T>(s: Seq<(Address, T)>) -> bool {
    forall|i: int, j: int|
        #![trigger s[i], s[j]]
        0 <= i < s.len() && 0 <= j < s.len() && i != j ==> s[i].0 != s[j].0
}

/// The map that a sequence of rows stands for.
pub open spec fn keyed<T>(s: Seq<(Address, T)>) -> Map<Address, T> {
    Map::new(
        |k: Address| exists|i: int| 0 <= i < s.len() && s[i].0 == k,
        |k: Address| s[choose|i: int| 0 <= i < s.len() && s[i].0 == k].1,
    )
}

proof fn lemma_keyed_at<T>(s: Seq<(Address, T)>, i: int)
    requires
        unique_keys(s),
        0 <= i < s.len(),
    ensures
        keyed(s).contains_key(s[i].0),
        keyed(s)[s[i].0] == s[i].1,
{
    let k = s[i].0;
    assert(exists|j: int| 0 <= j < s.len() && s[j].0 == k);
    let j = choose|j: int| 0 <= j < s.len() && s[j].0 == k;
    assert(s[i].0 == s[j].0);
}

impl<T: Copy> Table<T> {
    pub open spec fn wf(&self) -> bool {
        unique_keys(self.rows@)
    }

    pub open spec fn view(&self) -> Map<Address, T> {
        keyed(self.rows@)
    }

    pub fn new() -> (r: Self)
        ensures
            r.wf(),
            r@ == Map::<Address, T>::empty(),
    {
        let r = Table { rows: Vec::new() };
        assert(r@ =~= Map::<Address, T>::empty());
        r
    }

    /// A copy with the same rows.
    pub fn duplicate(&self) -> (r: Self)
        ensures
            r.rows@ == self.rows@,
    {
        let mut rows: Vec<(Address, T)> = Vec::new();
        let mut i: usize = 0;
        while i < self.rows.len()
            invariant
                i <= self.rows@.len(),
                rows@ == self.rows@.subrange(0, i as int),
            decreases self.rows@.len() - i,
        {
            rows.push(self.rows[i]);
            i = i + 1;
            assert(rows@ =~= self.rows@.subrange(0, i as int));
        }
        assert(self.rows@.subrange(0, self.rows@.len() as int) =~= self.rows@);
        Table { rows }
    }

    /// Position of the row for `k`.
    pub fn find(&self, k: &Address) -> (r: Option<usize>)
        requires
            self.wf(),
        ensures
            match r {
                Some(i) => i < self.rows@.len() && self.rows@[i as int].0 == *k
                    && self@.contains_key(*k) && self@[*k] == self.rows@[i as int].1,
                None => !self@.contains_key(*k),
            },
    {
        let mut i: usize = 0;
        while i < self.rows.len()
            invariant
                self.wf(),
                i <= self.rows@.len(),
                forall|j: int| 0 <= j < i ==> self.rows@[j].0 != *k,
            decreases self.rows@.len() - i,
        {
            if self.rows[i].0.same(k) {
                proof {
                    lemma_keyed_at(self.rows@, i as int);
                }
                return Some(i);
            }
            i = i + 1;
        }
        None
    }

    pub fn get(&self, k: &Address) -> (r: Option<T>)
        requires
            self.wf(),
        ensures
            r == (if self@.contains_key(*k) {
                Some(self@[*k])
            } else {
                None::<T>
            }),
    {
        match self.find(k) {
            Some(i) => Some(self.rows[i].1),
            None => None,
        }
    }

    /// Adds a row for an address that has none.
    pub fn insert(&mut self, k: Address, v: T)
        requires
            old(self).wf(),
            !old(self)@.contains_key(k),
        ensures
            final(self).wf(),
            final(self)@ == old(self)@.insert(k, v),
    {
        let ghost s = self.rows@;
        self.rows.push((k, v));
        let ghost t = self.rows@;
        assert(t == s.push((k, v)));
        assert forall|i: int| 0 <= i < s.len() implies s[i].0 != k by {
            lemma_keyed_at(s, i);
        }
        assert(unique_keys(t));
        assert forall|a: Address| #[trigger] keyed(t).contains_key(a) == keyed(s).insert(k, v).contains_key(a) by {
            if a != k && keyed(t).contains_key(a) {
                let j = choose|j: int| 0 <= j < t.len() && t[j].0 == a;
                assert(s[j].0 == a);
            }
            if a != k && keyed(s).contains_key(a) {
                let j = choose|j: int| 0 <= j < s.len() && s[j].0 == a;
                assert(t[j].0 == a);
            }
            if a == k {
                assert(t[s.len() as int].0 == a);
            }
        }
        assert forall|a: Address| #[trigger] keyed(t).contains_key(a) implies keyed(t)[a] == keyed(s).insert(k, v)[a] by {
            let j = choose|j: int| 0 <= j < t.len() && t[j].0 == a;
            lemma_keyed_at(t, j);
            if a != k {
                lemma_keyed_at(s, j);
            }
        }
        assert(keyed(t) =~= keyed(s).insert(k, v));
    }

    /// Replaces the value of the row at position `i`.
    pub fn set(&mut self, i: usize, v: T)
        requires
            old(self).wf(),
            i < old(self).rows@.len(),
        ensures
            final(self).wf(),
            final(self).rows@.len() == old(self).rows@.len(),
            forall|k: int|
                0 <= k < old(self).rows@.len() ==> #[trigger] final(self).rows@[k].0 == old(
                    self,
                ).rows@[k].0,
            final(self)@ == old(self)@.insert(old(self).rows@[i as int].0, v),
    {
        let ghost s = self.rows@;
        let k = self.rows[i].0;
        self.rows.set(i, (k, v));
        let ghost t = self.rows@;
        assert(t == s.update(i as int, (k, v)));
        assert(unique_keys(t));
        assert forall|a: Address| #[trigger] keyed(t).contains_key(a) == keyed(s).insert(k, v).contains_key(a) by {
            if keyed(t).contains_key(a) {
                let j = choose|j: int| 0 <= j < t.len() && t[j].0 == a;
                assert(s[j].0 == a);
            }
            if keyed(s).contains_key(a) {
                let j = choose|j: int| 0 <= j < s.len() && s[j].0 == a;
                assert(t[j].0 == a);
            }
            if a == k {
                assert(t[i as int].0 == a);
            }
        }
        assert forall|a: Address| #[trigger] keyed(t).contains_key(a) implies keyed(t)[a] == keyed(s).insert(k, v)[a] by {
            let j = choose|j: int| 0 <= j < t.len() && t[j].0 == a;
            lemma_keyed_at(t, j);
            lemma_keyed_at(s, j);
        }
        assert(keyed(t) =~= keyed(s).insert(k, v));
    }

    /// Drops the row at position `i`.
    pub fn remove(&mut self, i: usize)
        requires
            old(self).wf(),
            i < old(self).rows@.len(),
        ensures
            final(self).wf(),
            final(self)@ == old(self)@.remove(old(self).rows@[i as int].0),
    {
        let ghost s = self.rows@;
        let ghost k = s[i as int].0;
        self.rows.remove(i);
        let ghost t = self.rows@;
        assert(t == s.remove(i as int));
        assert forall|a: int, b: int| 0 <= a < t.len() && 0 <= b < t.len() && a != b implies t[a].0 != t[b].0 by {
            let a2 = if a < i { a } else { a + 1 };
            let b2 = if b < i { b } else { b + 1 };
            assert(t[a] == s[a2]);
            assert(t[b] == s[b2]);
        }
        assert(unique_keys(t));
        assert forall|a: Address| #[trigger] keyed(t).contains_key(a) == keyed(s).remove(k).contains_key(a) by {
            if keyed(t).contains_key(a) {
                let j = choose|j: int| 0 <= j < t.len() && t[j].0 == a;
                let j2 = if j < i { j } else { j + 1 };
                assert(s[j2].0 == a);
                assert(j2 != i);
            }
            if keyed(s).contains_key(a) && a != k {
                let j = choose|j: int| 0 <= j < s.len() && s[j].0 == a;
                assert(j != i);
                let j2 = if j < i { j } else { j - 1 };
                assert(t[j2].0 == a);
            }
        }
        assert forall|a: Address| #[trigger] keyed(t).contains_key(a) implies keyed(t)[a] == keyed(s).remove(k)[a] by {
            let j = choose|j: int| 0 <= j < t.len() && t[j].0 == a;
            let j2 = if j < i { j } else { j + 1 };
            assert(t[j] == s[j2]);
            lemma_keyed_at(t, j);
            lemma_keyed_at(s, j2);
        }
        assert(keyed(t) =~= keyed(s).remove(k));
    }
}

} // verus!
