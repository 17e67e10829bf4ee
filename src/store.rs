//! The claim store: a map from claim bytes to the entry recorded for them.

use vstd::prelude::*;

verus! {

/// Identity of a principal, as supplied by the host once it has checked the
/// signature of the request.
pub type AccountId = u64;

/// Position in the host's ledger.
pub type BlockNumber = u64;

/// What the store records for a claim: its owner and the ledger position of
/// the last write.
pub type Entry = (AccountId, BlockNumber);

/// Byte-wise equality of two claims.
fn bytes_equal(a: &Vec<u8>, b: &Vec<u8>) -> (r: bool)
    ensures
        r == (a@ == b@),
{
    if a.len() != b.len() {
        return false;
    }
    let mut i: usize = 0;
    while i < a.len()
        invariant
            a@.len() == b@.len(),
            i <= a@.len(),
            forall|j: int| 0 <= j < i ==> a@[j] == b@[j],
        decreases a@.len() - i,
    {
        if a[i] != b[i] {
            return false;
        }
        i = i + 1;
    }
    assert(a@ =~= b@);
    true
}

struct Record {
    claim: Vec<u8>,
    owner: AccountId,
    at: BlockNumber,
}

/// A partial map from claims to entries: at most one entry per claim.
pub struct Proofs {
    records: Vec<Record>,
    model: Ghost<Map<Seq<u8>, Entry>>,
}

impl View for Proofs {
    type V = Map<Seq<u8>, Entry>;

    closed spec fn view(&self) -> Map<Seq<u8>, Entry> {
        self.model@
    }
}

impl Proofs {
    /// Well-formedness: claims are unique among the records, and the records
    /// and the model hold the same entries.
    pub closed spec fn wf(&self) -> bool {
        &&& forall|i: int, j: int|
            0 <= i < self.records@.len() && 0 <= j < self.records@.len() && i != j
                ==> self.records@[i].claim@ != self.records@[j].claim@
        &&& forall|i: int|
            #![trigger self.records@[i]]
            0 <= i < self.records@.len() ==> {
                &&& self.model@.contains_key(self.records@[i].claim@)
                &&& self.model@[self.records@[i].claim@] == (
                    self.records@[i].owner,
                    self.records@[i].at,
                )
            }
        &&& forall|k: Seq<u8>|
            #[trigger] self.model@.contains_key(k) ==> exists|i: int|
                0 <= i < self.records@.len() && self.records@[i].claim@ == k
    }

    /// An empty store.
    pub fn new() -> (r: Proofs)
        ensures
            r.wf(),
            r@ == Map::<Seq<u8>, Entry>::empty(),
    {
        Proofs { records: Vec::new(), model: Ghost(Map::empty()) }
    }

    /// Number of claims held.
    pub fn len(&self) -> (r: usize)
        requires
            self.wf(),
        ensures
            r == self@.len(),
    {
        proof {
            self.lemma_dom_len();
        }
        self.records.len()
    }

    /// The records are as many as the claims held.
    proof fn lemma_dom_len(&self)
        requires
            self.wf(),
        ensures
            self@.dom().finite(),
            self@.dom().len() == self.records@.len(),
    {
        let keys = self.records@.map_values(|r: Record| r.claim@);
        assert(keys.no_duplicates());
        keys.unique_seq_to_set();
        assert(self@.dom() =~= keys.to_set()) by {
            assert forall|k: Seq<u8>| self@.dom().contains(k) implies keys.to_set().contains(k) by {
                let i = choose|i: int| 0 <= i < self.records@.len() && self.records@[i].claim@ == k;
                assert(keys[i] == k);
            }
        }
    }

    /// Position of `claim` among the records, if it is held.
    fn position(&self, claim: &Vec<u8>) -> (r: Option<usize>)
        requires
            self.wf(),
        ensures
            match r {
                Some(i) => i < self.records@.len() && self.records@[i as int].claim@ == claim@,
                None => forall|i: int|
                    0 <= i < self.records@.len() ==> self.records@[i].claim@ != claim@,
            },
    {
        let mut i: usize = 0;
        while i < self.records.len()
            invariant
                i <= self.records@.len(),
                forall|j: int| 0 <= j < i ==> self.records@[j].claim@ != claim@,
            decreases self.records@.len() - i,
        {
            if bytes_equal(&self.records[i].claim, claim) {
                return Some(i);
            }
            i = i + 1;
        }
        None
    }

    /// Whether an entry is held for `claim`.
    pub fn contains_key(&self, claim: &Vec<u8>) -> (r: bool)
        requires
            self.wf(),
        ensures
            r == self@.contains_key(claim@),
    {

        match self.position(claim) {
            Some(_) => true,
            None => false,
        }
    }

    /// The entry held for `claim`, if any.
    pub fn get(&self, claim: &Vec<u8>) -> (r: Option<Entry>)
        requires
            self.wf(),
        ensures
            r == (if self@.contains_key(claim@) {
                Some(self@[claim@])
            } else {
                None::<Entry>
            }),
    {

        match self.position(claim) {
            Some(i) => Some((self.records[i].owner, self.records[i].at)),
            None => None,
        }
    }

    /// Records `entry` for `claim`, replacing any entry held for it.
    pub fn insert(&mut self, claim: Vec<u8>, entry: Entry)
        requires
            old(self).wf(),
        ensures
            final(self).wf(),
            final(self)@ == old(self)@.insert(claim@, entry),
    {

        let ghost key = claim@;
        let ghost old_model = self.model@;
        let ghost mut at: int = 0;
        match self.position(&claim) {
            Some(i) => {
                self.records.set(i, Record { claim, owner: entry.0, at: entry.1 });
                proof {
                    at = i as int;
                }
            },
            None => {
                self.records.push(Record { claim, owner: entry.0, at: entry.1 });
                proof {
                    at = self.records@.len() - 1;
                }
            },
        }
        self.model = Ghost(old_model.insert(key, entry));
        assert forall|k: Seq<u8>| #[trigger] self.model@.contains_key(k) implies exists|i: int|
            0 <= i < self.records@.len() && self.records@[i].claim@ == k by {
            if k != key {
                let i = choose|i: int|
                    0 <= i < old(self).records@.len() && old(self).records@[i].claim@ == k;
                assert(self.records@[i].claim@ == k);
            } else {
                assert(self.records@[at].claim@ == key);
            }
        }
    }

    /// Drops the entry held for `claim`, if any.
    pub fn remove(&mut self, claim: &Vec<u8>)
        requires
            old(self).wf(),
        ensures
            final(self).wf(),
            final(self)@ == old(self)@.remove(claim@),
    {

        let ghost old_model = self.model@;
        match self.position(claim) {
            Some(i) => {
                let ghost before = self.records@;
                self.records.swap_remove(i);
                self.model = Ghost(old_model.remove(claim@));
                assert forall|k: Seq<u8>| #[trigger] self.model@.contains_key(k) implies exists|j: int|
                    0 <= j < self.records@.len() && self.records@[j].claim@ == k by {
                    let j = choose|j: int| 0 <= j < before.len() && before[j].claim@ == k;
                    if j == before.len() - 1 {
                        assert(self.records@[i as int].claim@ == k);
                    } else {
                        assert(self.records@[j].claim@ == k);
                    }
                }
            },
            None => {
                assert(!old_model.contains_key(claim@));
                assert(old_model.remove(claim@) =~= old_model);
            },
        }
    }
}

} // verus!
