use vstd::prelude::*;

verus! {

/// An environment: variable names mapped to values, each name at most once,
/// kept in the order in which names were first set.
pub struct EnvMap {
    keys: Vec<String>,
    values: Vec<String>,
    contents: Ghost<Map<Seq<char>, Seq<char>>>,
}

impl View for EnvMap {
    type V = Map<Seq<char>, Seq<char>>;

    closed spec fn view(&self) -> Map<Seq<char>, Seq<char>> {
        self.contents@
    }
}

impl EnvMap {
    /// Names are unique, and the stored pairs are exactly the view.
    pub closed spec fn wf(&self) -> bool {
        &&& self.keys.len() == self.values.len()
        &&& forall|i: int, j: int|
            0 <= i < j < self.keys.len() ==> #[trigger] self.keys@[i]@ != #[trigger] self.keys@[j]@
        &&& forall|i: int|
            0 <= i < self.keys.len() ==> self.contents@.contains_key(#[trigger] self.keys@[i]@)
                && self.contents@[self.keys@[i]@] == self.values@[i]@
        &&& forall|k: Seq<char>|
            #[trigger] self.contents@.contains_key(k) ==> exists|i: int|
                0 <= i < self.keys.len() && #[trigger] self.keys@[i]@ == k
    }

    /// The number of variables.
    pub closed spec fn count(&self) -> nat {
        self.keys.len() as nat
    }

    /// The names in the order in which they were first set.
    pub closed spec fn key_order(&self) -> Seq<Seq<char>> {
        self.keys@.map_values(|s: String| s@)
    }

    pub fn new() -> (r: EnvMap)
        ensures
            r.wf(),
            r@ == Map::<Seq<char>, Seq<char>>::empty(),
            r.count() == 0,
    {
        EnvMap { keys: Vec::new(), values: Vec::new(), contents: Ghost(Map::empty()) }
    }

    /// The number of variables.
    pub fn len(&self) -> (r: usize)
        requires
            self.wf(),
        ensures
            r == self.count(),
            r == self@.len(),
    {
        proof {
            self.lemma_count_is_len();
        }
        self.keys.len()
    }

    proof fn lemma_count_is_len(&self)
        requires
            self.wf(),
        ensures
            self.count() == self@.len(),
    {
        let ks = self.keys@.map_values(|s: String| s@);
        assert forall|i: int, j: int| 0 <= i < j < ks.len() implies ks[i] != ks[j] by {
            assert(self.keys@[i]@ != self.keys@[j]@);
        }
        assert(ks.no_duplicates());
        assert forall|k: Seq<char>| self@.contains_key(k) <==> ks.to_set().contains(k) by {
            if self@.contains_key(k) {
                let i = choose|i: int| 0 <= i < self.keys.len() && #[trigger] self.keys@[i]@ == k;
                assert(ks[i] == k);
            }
            if ks.to_set().contains(k) {
                let i = choose|i: int| 0 <= i < ks.len() && ks[i] == k;
                assert(self.contents@.contains_key(self.keys@[i]@));
            }
        }
        assert(self@.dom() =~= ks.to_set());
        ks.unique_seq_to_set();
    }

    /// Position of `key` among the stored names.
    fn find(&self, key: &String) -> (r: Option<usize>)
        requires
            self.wf(),
        ensures
            match r {
                Some(i) => i < self.keys.len() && self.keys@[i as int]@ == key@,
                None => !self@.contains_key(key@),
            },
    {
        let mut i: usize = 0;
        while i < self.keys.len()
            invariant
                self.wf(),
                i <= self.keys.len(),
                forall|j: int| 0 <= j < i ==> #[trigger] self.keys@[j]@ != key@,
            decreases self.keys.len() - i,
        {
            if self.keys[i] == *key {
                return Some(i);
            }
            i = i + 1;
        }
        None
    }

    /// The value of `key`, if it is set.
    pub fn get(&self, key: &String) -> (r: Option<&String>)
        requires
            self.wf(),
        ensures
            match r {
                Some(v) => self@.contains_key(key@) && self@[key@] == v@,
                None => !self@.contains_key(key@),
            },
    {
        match self.find(key) {
            Some(i) => Some(&self.values[i]),
            None => None,
        }
    }

    /// Sets `key` to `value`, replacing an earlier value.
    pub fn insert(&mut self, key: String, value: String)
        requires
            old(self).wf(),
        ensures
            final(self).wf(),
            final(self)@ == old(self)@.insert(key@, value@),
    {
        let ghost k = key@;
        let ghost v = value@;
        match self.find(&key) {
            Some(i) => {
                self.values.set(i, value);
                self.contents = Ghost(self.contents@.insert(k, v));
                assert forall|j: int| 0 <= j < self.keys.len() implies self.contents@.contains_key(
                    #[trigger] self.keys@[j]@,
                ) && self.contents@[self.keys@[j]@] == self.values@[j]@ by {
                    if j != i {
                        assert(old(self).keys@[j]@ != old(self).keys@[i as int]@);
                    }
                }
                assert forall|q: Seq<char>| #[trigger]
                    self.contents@.contains_key(q) implies exists|j: int|
                    0 <= j < self.keys.len() && #[trigger] self.keys@[j]@ == q by {
                    if q != k {
                        assert(old(self).contents@.contains_key(q));
                        let j = choose|j: int|
                            0 <= j < old(self).keys.len() && #[trigger] old(self).keys@[j]@ == q;
                        assert(self.keys@[j]@ == q);
                    } else {
                        assert(self.keys@[i as int]@ == q);
                    }
                }
            },
            None => {
                self.keys.push(key);
                self.values.push(value);
                self.contents = Ghost(self.contents@.insert(k, v));
                let ghost n = self.keys.len() - 1;
                assert(self.keys@[n]@ == k);
                assert forall|a: int, b: int|
                    0 <= a < b < self.keys.len() implies #[trigger] self.keys@[a]@
                    != #[trigger] self.keys@[b]@ by {
                    if b == n {
                        assert(old(self).contents@.contains_key(old(self).keys@[a]@));
                    } else {
                        assert(old(self).keys@[a]@ != old(self).keys@[b]@);
                    }
                }
                assert forall|j: int| 0 <= j < self.keys.len() implies self.contents@.contains_key(
                    #[trigger] self.keys@[j]@,
                ) && self.contents@[self.keys@[j]@] == self.values@[j]@ by {
                    if j < n {
                        assert(old(self).contents@.contains_key(old(self).keys@[j]@));
                        assert(old(self).keys@[j]@ != k);
                    }
                }
                assert forall|q: Seq<char>| #[trigger]
                    self.contents@.contains_key(q) implies exists|j: int|
                    0 <= j < self.keys.len() && #[trigger] self.keys@[j]@ == q by {
                    if q != k {
                        assert(old(self).contents@.contains_key(q));
                        let j = choose|j: int|
                            0 <= j < old(self).keys.len() && #[trigger] old(self).keys@[j]@ == q;
                        assert(self.keys@[j]@ == q);
                    }
                }
            },
        }
    }

    /// The name stored at position `i`, in the order names were first set.
    pub fn key_at(&self, i: usize) -> (r: &String)
        requires
            self.wf(),
            i < self.count(),
        ensures
            r@ == self.key_order()[i as int],
            self@.contains_key(r@),
    {
        &self.keys[i]
    }

    /// The value stored at position `i`; it belongs to `key_at(i)`.
    pub fn value_at(&self, i: usize) -> (r: &String)
        requires
            self.wf(),
            i < self.count(),
        ensures
            self@[self.key_order()[i as int]] == r@,
    {
        &self.values[i]
    }
}

} // verus!
