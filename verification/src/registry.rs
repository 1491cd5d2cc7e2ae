//! Nullifier registry: tracks which holder public keys (`hpk`) have already
//! been used to publish a review.

use vstd::prelude::*;

use crate::bytes::bytes32_eq;

verus! {

/// A set of spent holder public keys. Implemented by users that keep the set
/// elsewhere (a database, a shared service); [`MemoryRegistry`] keeps it in
/// memory.
pub trait Registry {
    /// The holder public keys recorded as spent.
    spec fn spent(&self) -> Set<[u8; 32]>;

    /// Whether `hpk` is recorded as spent.
    fn contains(&self, hpk: &[u8; 32]) -> (found: bool)
        ensures
            found == self.spent().contains(*hpk),
    ;

    /// Records `hpk` as spent.
    fn insert(&mut self, hpk: [u8; 32])
        ensures
            final(self).spent() == old(self).spent().insert(hpk),
    ;
}

/// The spent set after recording each key of `xs` in turn, starting from
/// `start`, as [`Registry::insert`] records one.
pub open spec fn spent_after(start: Set<[u8; 32]>, xs: Seq<[u8; 32]>) -> Set<[u8; 32]>
    decreases xs.len(),
{
    if xs.len() == 0 {
        start
    } else {
        spent_after(start, xs.drop_last()).insert(xs.last())
    }
}

/// Recording keys one by one into an empty registry leaves exactly the keys
/// recorded: recording a spent key again changes nothing, and the number of
/// spent keys is the number of distinct keys recorded.
pub proof fn law_registry_after_inserts(xs: Seq<[u8; 32]>)
    ensures
        spent_after(Set::empty(), xs) == xs.to_set(),
        spent_after(Set::empty(), xs).finite(),
        spent_after(Set::empty(), xs).len() == xs.to_set().len(),
    decreases xs.len(),
{
    if xs.len() > 0 {
        law_registry_after_inserts(xs.drop_last());
        xs.drop_last().lemma_push_to_set_commute(xs.last());
        assert(xs.drop_last().push(xs.last()) =~= xs);
    } else {
        assert(xs.to_set() =~= Set::<[u8; 32]>::empty());
    }
    vstd::seq_lib::seq_to_set_is_finite(xs);
}

/// In-memory nullifier registry.
#[derive(Debug)]
pub struct MemoryRegistry {
    spent: Vec<[u8; 32]>,
}

impl MemoryRegistry {
    /// Each spent key is held once.
    #[verifier::type_invariant]
    spec fn distinct(self) -> bool {
        self.spent@.no_duplicates()
    }

    /// The set of spent keys.
    pub closed spec fn spent_set(&self) -> Set<[u8; 32]> {
        self.spent@.to_set()
    }

    /// An empty registry.
    pub fn new() -> (r: Self)
        ensures
            r.spent_set() == Set::<[u8; 32]>::empty(),
    {
        let r = MemoryRegistry { spent: Vec::new() };
        assert(r.spent_set() =~= Set::<[u8; 32]>::empty());
        r
    }

    /// Number of spent keys.
    pub fn len(&self) -> (n: usize)
        ensures
            self.spent_set().finite(),
            n == self.spent_set().len(),
    {
        proof {
            use_type_invariant(self);
            self.spent@.unique_seq_to_set();
            vstd::seq_lib::seq_to_set_is_finite(self.spent@);
        }
        self.spent.len()
    }

    /// Whether no key has been spent yet.
    pub fn is_empty(&self) -> (empty: bool)
        ensures
            self.spent_set().finite(),
            empty == (self.spent_set().len() == 0),
            empty == (self.spent_set() == Set::<[u8; 32]>::empty()),
    {
        proof {
            use_type_invariant(self);
            self.spent@.unique_seq_to_set();
            vstd::seq_lib::seq_to_set_is_finite(self.spent@);
            vstd::set_lib::lemma_set_empty_equivalency_len(self.spent_set());
        }
        self.spent.len() == 0
    }

    fn position(&self, hpk: &[u8; 32]) -> (found: bool)
        ensures
            found == self.spent_set().contains(*hpk),
    {
        let n = self.spent.len();
        let mut i: usize = 0;
        while i < n
            invariant
                n == self.spent@.len(),
                i <= n,
                forall|j: int| 0 <= j < i ==> self.spent@[j] != *hpk,
            decreases n - i,
        {
            if bytes32_eq(&self.spent[i], hpk) {
                assert(self.spent@[i as int] =~= *hpk);
                assert(self.spent@.contains(*hpk));
                return true;
            }
            i = i + 1;
        }
        false
    }
}

impl Clone for MemoryRegistry {
    fn clone(&self) -> (r: Self)
        ensures
            r.spent_set() == self.spent_set(),
    {
        proof {
            use_type_invariant(self);
        }
        let n = self.spent.len();
        let mut copy: Vec<[u8; 32]> = Vec::new();
        let mut i: usize = 0;
        while i < n
            invariant
                n == self.spent@.len(),
                i <= n,
                copy@ == self.spent@.take(i as int),
            decreases n - i,
        {
            copy.push(self.spent[i]);
            i = i + 1;
            assert(copy@ =~= self.spent@.take(i as int));
        }
        assert(copy@ =~= self.spent@);
        MemoryRegistry { spent: copy }
    }
}

impl Default for MemoryRegistry {
    fn default() -> (r: Self)
        ensures
            r.spent_set() == Set::<[u8; 32]>::empty(),
    {
        MemoryRegistry::new()
    }
}

impl Registry for MemoryRegistry {
    open spec fn spent(&self) -> Set<[u8; 32]> {
        self.spent_set()
    }

    fn contains(&self, hpk: &[u8; 32]) -> (found: bool) {
        self.position(hpk)
    }

    fn insert(&mut self, hpk: [u8; 32]) {
        if !self.position(&hpk) {
            proof {
                use_type_invariant(&*self);
            }
            let ghost before = self.spent@;
            let mut held: Vec<[u8; 32]> = Vec::new();
            std::mem::swap(&mut held, &mut self.spent);
            held.push(hpk);
            assert(held@ =~= before.push(hpk));
            assert(held@.no_duplicates());
            self.spent = held;
            assert forall|a: [u8; 32]| #[trigger] self.spent@.contains(a) <==> (before.contains(a) || a == hpk) by {
                if before.contains(a) {
                    let k = choose|k: int| 0 <= k < before.len() && before[k] == a;
                    assert(self.spent@[k] == a);
                }
                if self.spent@.contains(a) && a != hpk {
                    let k = choose|k: int| 0 <= k < self.spent@.len() && self.spent@[k] == a;
                    assert(before[k] == a);
                }
                if a == hpk {
                    assert(self.spent@[before.len() as int] == a);
                }
            }
            assert(self.spent@.to_set() =~= before.to_set().insert(hpk));
        } else {
            assert(self.spent@.to_set() =~= self.spent@.to_set().insert(hpk));
        }
    }
}

} // verus!
