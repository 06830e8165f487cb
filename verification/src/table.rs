//! Values held under text keys.
use crate::text;
use vstd::prelude::*;

verus! {

/// Values under text keys, each key at most once.
#[derive(Debug)]
pub struct Table<T> {
    rows: Vec<(String, T)>,
}

/// The keys of rows.
spec fn keys_of<T>(rows: Seq<(String, T)>) -> Seq<Seq<char>> {
    rows.map_values(|r: (String, T)| r.0@)
}

/// Where a key stands in rows.
spec fn place<T>(rows: Seq<(String, T)>, key: Seq<char>) -> int {
    choose|i: int| 0 <= i < rows.len() && (#[trigger] rows[i]).0@ == key
}

/// What rows hold.
spec fn held<T>(rows: Seq<(String, T)>) -> Map<Seq<char>, T> {
    Map::new(
        |key: Seq<char>| keys_of(rows).contains(key),
        |key: Seq<char>| rows[place(rows, key)].1,
    )
}

proof fn lemma_held<T>(rows: Seq<(String, T)>, i: int)
    requires
        keys_of(rows).no_duplicates(),
        0 <= i < rows.len(),
    ensures
        held(rows).dom().contains(rows[i].0@),
        held(rows)[rows[i].0@] == rows[i].1,
{
    let key = rows[i].0@;
    assert(keys_of(rows)[i] == key);
    let p = place(rows, key);
    assert(rows[i].0@ == key);
    assert(0 <= p < rows.len() && rows[p].0@ == key);
    assert(keys_of(rows)[p] == key);
}

proof fn lemma_absent<T>(rows: Seq<(String, T)>, key: Seq<char>)
    requires
        forall|i: int| 0 <= i < rows.len() ==> (#[trigger] rows[i]).0@ != key,
    ensures
        !held(rows).dom().contains(key),
{
    if keys_of(rows).contains(key) {
        let i = choose|i: int| 0 <= i < keys_of(rows).len() && keys_of(rows)[i] == key;
        assert(rows[i].0@ == key);
    }
}

impl<T> View for Table<T> {
    type V = Map<Seq<char>, T>;

    closed spec fn view(&self) -> Map<Seq<char>, T> {
        held(self.rows@)
    }
}

impl<T> Table<T> {
    #[verifier::type_invariant]
    spec fn well_formed(self) -> bool {
        keys_of(self.rows@).no_duplicates()
    }

    /// A table that holds nothing.
    pub fn new() -> (r: Self)
        ensures
            r@ == Map::<Seq<char>, T>::empty(),
    {
        let r = Table { rows: Vec::new() };
        assert(r@ =~= Map::<Seq<char>, T>::empty());
        r
    }

    fn find(&self, key: &str) -> (r: Option<usize>)
        ensures
            match r {
                Some(i) => i < self.rows@.len() && self.rows@[i as int].0@ == key@,
                None => forall|i: int|
                    0 <= i < self.rows@.len() ==> (#[trigger] self.rows@[i]).0@ != key@,
            },
    {
        let mut i: usize = 0;
        while i < self.rows.len()
            invariant
                i <= self.rows@.len(),
                forall|k: int| 0 <= k < i ==> (#[trigger] self.rows@[k]).0@ != key@,
            decreases self.rows@.len() - i,
        {
            if text::same(&self.rows[i].0, key) {
                return Some(i);
            }
            i = i + 1;
        }
        None
    }

    /// The value under a key.
    pub fn get(&self, key: &str) -> (r: Option<&T>)
        ensures
            match r {
                Some(v) => self@.dom().contains(key@) && *v == self@[key@],
                None => !self@.dom().contains(key@),
            },
    {
        proof {
            use_type_invariant(self);
        }
        match self.find(key) {
            Some(i) => {
                proof {
                    lemma_held(self.rows@, i as int);
                }
                Some(&self.rows[i].1)
            },
            None => {
                proof {
                    lemma_absent(self.rows@, key@);
                }
                None
            },
        }
    }

    /// Whether there is a value under a key.
    pub fn has(&self, key: &str) -> (r: bool)
        ensures
            r == self@.dom().contains(key@),
    {
        self.get(key).is_some()
    }

    /// Takes the value under a key out.
    pub fn take(&mut self, key: &str) -> (r: Option<T>)
        ensures
            match r {
                Some(v) => old(self)@.dom().contains(key@) && v == old(self)@[key@],
                None => !old(self)@.dom().contains(key@),
            },
            final(self)@ == old(self)@.remove(key@),
    {
        proof {
            use_type_invariant(&*self);
        }
        let ghost before = self.rows@;
        match self.find(key) {
            Some(i) => {
                let mut rows: Vec<(String, T)> = Vec::new();
                std::mem::swap(&mut rows, &mut self.rows);
                proof {
                    lemma_held(before, i as int);
                }
                let row = rows.remove(i);
                proof {
                    let after = rows@;
                    assert(after =~= before.remove(i as int));
                    assert(keys_of(after) =~= keys_of(before).remove(i as int));
                    assert forall|j: int, k: int|
                        0 <= j < after.len() && 0 <= k < after.len() && j != k implies keys_of(
                        after,
                    )[j] != keys_of(after)[k] by {
                        let x = if j < i {
                            j
                        } else {
                            j + 1
                        };
                        let y = if k < i {
                            k
                        } else {
                            k + 1
                        };
                        assert(keys_of(before)[x] != keys_of(before)[y]);
                        assert(after[j] == before[x] && after[k] == before[y]);
                    }
                    lemma_removed(before, i as int);
                }
                self.rows = rows;
                Some(row.1)
            },
            None => {
                proof {
                    lemma_absent(before, key@);
                    assert(held(before).remove(key@) =~= held(before));
                }
                None
            },
        }
    }

    /// Puts a value under a key, in place of what was there.
    pub fn put(&mut self, key: &str, value: T)
        ensures
            final(self)@ == old(self)@.insert(key@, value),
    {
        let _ = self.take(key);
        proof {
            use_type_invariant(&*self);
        }
        let ghost before = self.rows@;
        let mut rows: Vec<(String, T)> = Vec::new();
        std::mem::swap(&mut rows, &mut self.rows);
        rows.push((key.to_owned(), value));
        proof {
            let after = rows@;
            let n = before.len() as int;
            assert(keys_of(after) =~= keys_of(before).push(key@));
            assert forall|j: int| 0 <= j < n implies keys_of(before)[j] != key@ by {
                lemma_held(before, j);
            }
            assert(keys_of(after).no_duplicates());
            assert forall|k: Seq<char>| held(after).dom().contains(k) == held(before).insert(
                key@,
                value,
            ).dom().contains(k) by {
                if keys_of(after).contains(k) {
                    let j = choose|j: int| 0 <= j < keys_of(after).len() && keys_of(after)[j] == k;
                    if j < n {
                        assert(keys_of(before)[j] == k);
                    }
                }
                if keys_of(before).contains(k) {
                    let j = choose|j: int|
                        0 <= j < keys_of(before).len() && keys_of(before)[j] == k;
                    assert(keys_of(after)[j] == k);
                }
                assert(keys_of(after)[n] == key@);
            }
            assert forall|k: Seq<char>| #[trigger] held(after).dom().contains(k) implies held(
                after,
            )[k] == held(before).insert(key@, value)[k] by {
                let j = choose|j: int| 0 <= j < keys_of(after).len() && keys_of(after)[j] == k;
                lemma_held(after, j);
                if j < n {
                    lemma_held(before, j);
                    assert(after[j] == before[j]);
                }
            }
            assert(held(after) =~= held(before).insert(key@, value));
            assert(old(self)@.remove(key@).insert(key@, value) =~= old(self)@.insert(key@, value));
        }
        self.rows = rows;
    }

    /// How many keys there are.
    pub fn len(&self) -> (r: usize)
        ensures
            self@.dom().finite(),
            r == self@.dom().len(),
    {
        proof {
            use_type_invariant(self);
            let keys = keys_of(self.rows@);
            keys.unique_seq_to_set();
            assert(self@.dom() =~= keys.to_set());
        }
        self.rows.len()
    }
}

proof fn lemma_removed<T>(before: Seq<(String, T)>, i: int)
    requires
        keys_of(before).no_duplicates(),
        0 <= i < before.len(),
        keys_of(before.remove(i)).no_duplicates(),
    ensures
        held(before.remove(i)) == held(before).remove(before[i].0@),
{
    let after = before.remove(i);
    let key = before[i].0@;
    assert forall|k: Seq<char>| held(after).dom().contains(k) == held(before).remove(
        key,
    ).dom().contains(k) by {
        if keys_of(after).contains(k) {
            let j = choose|j: int| 0 <= j < keys_of(after).len() && keys_of(after)[j] == k;
            let x = if j < i {
                j
            } else {
                j + 1
            };
            assert(after[j] == before[x]);
            assert(keys_of(before)[x] == k);
            assert(keys_of(before)[i] == key);
        }
        if keys_of(before).contains(k) && k != key {
            let x = choose|x: int| 0 <= x < keys_of(before).len() && keys_of(before)[x] == k;
            let j = if x < i {
                x
            } else {
                x - 1
            };
            assert(after[j] == before[x]);
            assert(keys_of(after)[j] == k);
        }
    }
    assert forall|k: Seq<char>| #[trigger] held(after).dom().contains(k) implies held(after)[k]
        == held(before).remove(key)[k] by {
        let j = choose|j: int| 0 <= j < keys_of(after).len() && keys_of(after)[j] == k;
        let x = if j < i {
            j
        } else {
            j + 1
        };
        assert(after[j] == before[x]);
        lemma_held(after, j);
        lemma_held(before, x);
    }
    assert(held(after) =~= held(before).remove(key));
}

} // verus!
