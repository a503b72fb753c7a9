//! A small set of key or button codes that remembers the order of arrival.

use vstd::prelude::*;

verus! {

/// The codes `s` with `key` behind them, unless it is among them already.
pub open spec fn with_key(s: Seq<u32>, key: u32) -> Seq<u32> {
    if s.contains(key) {
        s
    } else {
        s.push(key)
    }
}

/// The codes `s` without `key`, the others in their order.
pub open spec fn without_key(s: Seq<u32>, key: u32) -> Seq<u32> {
    if s.contains(key) {
        s.remove(s.index_of(key))
    } else {
        s
    }
}

/// A set of codes, kept in the order in which they were put in.
#[derive(Debug)]
pub struct KeySet {
    keys: Vec<u32>,
}

impl View for KeySet {
    type V = Seq<u32>;

    /// The codes in the order of their arrival.
    closed spec fn view(&self) -> Seq<u32> {
        self.keys@
    }
}

impl KeySet {
    #[verifier::type_invariant]
    spec fn distinct(&self) -> bool {
        self.keys@.no_duplicates()
    }

    /// The set without codes.
    pub fn new() -> (r: KeySet)
        ensures
            r@ == Seq::<u32>::empty(),
    {
        KeySet { keys: Vec::new() }
    }

    /// Number of codes in the set.
    pub fn len(&self) -> (n: usize)
        ensures
            n == self@.len(),
            self@.no_duplicates(),
    {
        proof {
            use_type_invariant(self);
        }
        self.keys.len()
    }

    /// The code that arrived as number `i`.
    pub fn get(&self, i: usize) -> (key: u32)
        requires
            i < self@.len(),
        ensures
            key == self@[i as int],
    {
        self.keys[i]
    }

    /// The codes in the order of their arrival.
    pub fn to_vec(&self) -> (keys: Vec<u32>)
        ensures
            keys@ == self@,
            keys@.no_duplicates(),
    {
        proof {
            use_type_invariant(self);
        }
        let mut keys: Vec<u32> = Vec::new();
        let mut i: usize = 0;
        while i < self.keys.len()
            invariant
                i <= self.keys.len(),
                keys@ == self.keys@.take(i as int),
            decreases self.keys.len() - i,
        {
            keys.push(self.keys[i]);
            assert(keys@ =~= self.keys@.take(i + 1));
            i = i + 1;
        }
        assert(self.keys@.take(i as int) =~= self.keys@);
        keys
    }

    /// Where `key` stands in the order of arrival, if it is in the set.
    pub fn position(&self, key: u32) -> (at: Option<usize>)
        ensures
            at is Some <==> self@.contains(key),
            at matches Some(i) ==> i < self@.len() && self@[i as int] == key,
    {
        let mut i: usize = 0;
        while i < self.keys.len()
            invariant
                i <= self.keys.len(),
                forall|j: int| 0 <= j < i ==> self.keys@[j] != key,
            decreases self.keys.len() - i,
        {
            if self.keys[i] == key {
                return Some(i);
            }
            i = i + 1;
        }
        None
    }

    /// Whether `key` is in the set.
    pub fn contains(&self, key: u32) -> (found: bool)
        ensures
            found == self@.contains(key),
    {
        self.position(key).is_some()
    }

    /// Puts `key` in, behind the others, unless it is in already. Says
    /// whether it was new.
    pub fn insert(&mut self, key: u32) -> (fresh: bool)
        ensures
            fresh == !old(self)@.contains(key),
            final(self)@ == with_key(old(self)@, key),
            final(self)@.no_duplicates(),
    {
        proof {
            use_type_invariant(&*self);
        }
        if self.contains(key) {
            false
        } else {
            let mut keys = self.to_vec();
            keys.push(key);
            self.keys = keys;
            true
        }
    }

    /// Takes `key` out and keeps the others in their order. Says whether it
    /// was in.
    pub fn remove(&mut self, key: u32) -> (found: bool)
        ensures
            found == old(self)@.contains(key),
            final(self)@ == without_key(old(self)@, key),
            !final(self)@.contains(key),
            forall|k: u32| k != key ==> final(self)@.contains(k) == old(self)@.contains(k),
            final(self)@.no_duplicates(),
    {
        proof {
            use_type_invariant(&*self);
        }
        match self.position(key) {
            Some(i) => {
                let ghost before = self.keys@;
                let mut keys = self.to_vec();
                keys.remove(i);
                proof {
                    let after = keys@;
                    let at = before.index_of(key);
                    assert(before[i as int] == key);
                    assert(at == i);
                    assert(after == before.remove(i as int));
                    assert forall|a: int, b: int|
                        0 <= a < after.len() && 0 <= b < after.len() && a != b implies after[a]
                        != after[b] by {
                        let a0 = if a < i { a } else { a + 1 };
                        let b0 = if b < i { b } else { b + 1 };
                        assert(before[a0] != before[b0]);
                    }
                    assert forall|k: u32| k != key implies after.contains(k) == before.contains(
                        k,
                    ) by {
                        if before.contains(k) {
                            let j = choose|j: int| 0 <= j < before.len() && before[j] == k;
                            let j1 = if j < i { j } else { j - 1 };
                            assert(after[j1] == k);
                        }
                        if after.contains(k) {
                            let j = choose|j: int| 0 <= j < after.len() && after[j] == k;
                            let j0 = if j < i { j } else { j + 1 };
                            assert(before[j0] == k);
                        }
                    }
                    if after.contains(key) {
                        let j = choose|j: int| 0 <= j < after.len() && after[j] == key;
                        let j0 = if j < i { j } else { j + 1 };
                        assert(before[j0] == before[i as int]);
                    }
                }
                self.keys = keys;
                true
            },
            None => false,
        }
    }

    /// Takes every code out.
    pub fn clear(&mut self)
        ensures
            final(self)@ == Seq::<u32>::empty(),
    {
        self.keys = Vec::new();
    }
}

} // verus!
