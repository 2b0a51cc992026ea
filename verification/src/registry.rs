use vstd::prelude::*;
use crate::addr::CanonAddr;
use crate::error::Error;

verus! {

/// A template: the reference to the child program that every future spawn
/// will instantiate, together with the content hash that lets callers
/// verify the deployed code.
#[derive(Debug)]
pub struct ContractCode {
    pub id: u64,
    pub code_hash: String,
}

/// A link to a deployed program: its address (canonical while stored,
/// human-readable when handed out) and the content hash of its code.
#[derive(Debug)]
pub struct ContractLink<A> {
    pub address: A,
    pub code_hash: String,
}

/// An instance record: the link to the spawned child plus the
/// caller-supplied extra metadata. Once written, a record is never
/// updated or deleted.
#[derive(Debug)]
pub struct Instance<A, EXTRA> {
    pub contract: ContractLink<A>,
    pub extra: EXTRA,
}

/// The canonical identity under which the record at position `i` is filed.
pub open spec fn key_at<EXTRA>(s: Seq<Instance<CanonAddr, EXTRA>>, i: int) -> Seq<char> {
    s[i].contract.address@
}

/// Some record in `s` is filed under identity `k`.
pub open spec fn has_key<EXTRA>(s: Seq<Instance<CanonAddr, EXTRA>>, k: Seq<char>) -> bool {
    exists|i: int| 0 <= i < s.len() && key_at(s, i) == k
}

/// No two records in `s` share a canonical identity.
pub open spec fn unique_keys<EXTRA>(s: Seq<Instance<CanonAddr, EXTRA>>) -> bool {
    forall|i: int, j: int| 0 <= i < j < s.len() ==> key_at(s, i) != key_at(s, j)
}

/// The first record in `s` filed under identity `k`, if any.
pub open spec fn lookup<EXTRA>(
    s: Seq<Instance<CanonAddr, EXTRA>>,
    k: Seq<char>,
) -> Option<Instance<CanonAddr, EXTRA>>
    decreases s.len(),
{
    if s.len() == 0 {
        None
    } else if key_at(s, 0) == k {
        Some(s[0])
    } else {
        lookup(s.drop_first(), k)
    }
}

/// `lookup` finds a record exactly when one is filed under `k`.
pub proof fn lemma_lookup_has_key<EXTRA>(s: Seq<Instance<CanonAddr, EXTRA>>, k: Seq<char>)
    ensures
        (lookup(s, k) is Some) <==> has_key(s, k),
    decreases s.len(),
{
    if s.len() == 0 {
    } else if key_at(s, 0) == k {
        assert(has_key(s, k));
    } else {
        let tail = s.drop_first();
        lemma_lookup_has_key(tail, k);
        if has_key(s, k) {
            let i = choose|i: int| 0 <= i < s.len() && key_at(s, i) == k;
            assert(tail[i - 1] == s[i]);
            assert(key_at(tail, i - 1) == k);
            assert(has_key(tail, k));
        }
        if has_key(tail, k) {
            let i = choose|i: int| 0 <= i < tail.len() && key_at(tail, i) == k;
            assert(s[i + 1] == tail[i]);
            assert(key_at(s, i + 1) == k);
            assert(has_key(s, k));
        }
    }
}

/// When position `i` holds the first record filed under `k`, `lookup`
/// returns exactly that record.
pub proof fn lemma_lookup_at<EXTRA>(s: Seq<Instance<CanonAddr, EXTRA>>, k: Seq<char>, i: int)
    requires
        0 <= i < s.len(),
        key_at(s, i) == k,
        forall|j: int| 0 <= j < i ==> key_at(s, j) != k,
    ensures
        lookup(s, k) == Some(s[i]),
    decreases s.len(),
{
    if i == 0 {
    } else {
        let tail = s.drop_first();
        assert(key_at(s, 0) != k);
        assert(tail[i - 1] == s[i]);
        assert(key_at(tail, i - 1) == k);
        assert forall|j: int| 0 <= j < i - 1 implies key_at(tail, j) != k by {
            assert(tail[j] == s[j + 1]);
            assert(key_at(tail, j) == key_at(s, j + 1));
        }
        lemma_lookup_at(tail, k, i - 1);
    }
}

/// The instance registry: an append-only, insertion-ordered mapping from
/// canonical child identity to the recorded instance. Its view is the
/// sequence of records in registration order; well-formedness says the
/// canonical identities are pairwise distinct.
#[derive(Debug)]
pub struct InstanceRegistry<EXTRA> {
    entries: Vec<Instance<CanonAddr, EXTRA>>,
}

impl<EXTRA> View for InstanceRegistry<EXTRA> {
    type V = Seq<Instance<CanonAddr, EXTRA>>;

    closed spec fn view(&self) -> Seq<Instance<CanonAddr, EXTRA>> {
        self.entries@
    }
}

impl<EXTRA> InstanceRegistry<EXTRA> {
    pub open spec fn wf(&self) -> bool {
        unique_keys(self@)
    }

    /// An empty registry.
    pub fn new() -> (r: Self)
        ensures
            r@ == Seq::<Instance<CanonAddr, EXTRA>>::empty(),
            r.wf(),
    {
        InstanceRegistry { entries: Vec::new() }
    }

    /// How many records are registered, in constant time.
    pub fn count(&self) -> (r: u64)
        ensures
            r == self@.len(),
    {
        self.entries.len() as u64
    }

    /// How many records are registered, as an index bound.
    pub fn len(&self) -> (r: usize)
        ensures
            r == self@.len(),
    {
        self.entries.len()
    }

    /// The record at position `i`, in registration order.
    pub fn entry_at(&self, i: usize) -> (r: &Instance<CanonAddr, EXTRA>)
        requires
            i < self@.len(),
        ensures
            *r == self@[i as int],
    {
        &self.entries[i]
    }

    /// Look up the record filed under canonical identity `key`.
    pub fn get(&self, key: &CanonAddr) -> (r: Option<&Instance<CanonAddr, EXTRA>>)
        ensures
            match r {
                Some(inst) => lookup(self@, key@) == Some(*inst) && has_key(self@, key@),
                None => !has_key(self@, key@),
            },
    {
        let n = self.entries.len();
        let mut i: usize = 0;
        while i < n
            invariant
                n == self@.len(),
                0 <= i <= n,
                forall|j: int| 0 <= j < i ==> key_at(self@, j) != key@,
            decreases n - i,
        {
            if self.entries[i].contract.address.same_key(key) {
                proof {
                    assert(key_at(self@, i as int) == key@);
                    lemma_lookup_at(self@, key@, i as int);
                    assert(has_key(self@, key@));
                }
                return Some(&self.entries[i]);
            }
            i += 1;
        }
        proof {
            lemma_lookup_has_key(self@, key@);
        }
        None
    }

    /// File a record under its own canonical identity, at the end of the
    /// registration order. Fails, changing nothing, exactly when a record
    /// with the same identity is already present.
    pub fn insert(&mut self, inst: Instance<CanonAddr, EXTRA>) -> (r: Result<(), Error>)
        requires
            old(self).wf(),
        ensures
            final(self).wf(),
            has_key(old(self)@, inst.contract.address@) ==> r === Err(Error::DuplicateKey)
                && final(self)@ == old(self)@,
            !has_key(old(self)@, inst.contract.address@) ==> r === Ok(())
                && final(self)@ == old(self)@.push(inst),
    {
        let duplicate = self.get(&inst.contract.address).is_some();
        if duplicate {
            Err(Error::DuplicateKey)
        } else {
            proof {
                let s0 = self@;
                let s1 = self@.push(inst);
                assert forall|i: int, j: int| 0 <= i < j < s1.len() implies key_at(s1, i)
                    != key_at(s1, j) by {
                    if j == s0.len() {
                        assert(s1[j] == inst);
                        assert(s1[i] == s0[i]);
                        assert(key_at(s1, j) == inst.contract.address@);
                        assert(key_at(s1, i) == key_at(s0, i));
                        assert(key_at(s0, i) != inst.contract.address@);
                    } else {
                        assert(s1[i] == s0[i]);
                        assert(s1[j] == s0[j]);
                        assert(key_at(s1, i) == key_at(s0, i));
                        assert(key_at(s1, j) == key_at(s0, j));
                    }
                }
            }
            self.entries.push(inst);
            Ok(())
        }
    }
}

} // verus!
