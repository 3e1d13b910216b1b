//! Artifact transfer between workers, checked against a SHA-256 checksum.
use vstd::prelude::*;
use crate::assoc::{assoc, keys, lemma_contains_set, lemma_push_set, lemma_remove_set, lemma_assoc_get, lemma_assoc_index, lemma_assoc_push, lemma_assoc_update};
use crate::digest::{checksum_of, sha256_hex};
use crate::text::strs;
use crate::worker::model::WorkerError;

verus! {

/// An artifact with the checksum of its bytes.
#[derive(Debug)]
pub struct ArtifactBlob {
    pub artifact_id: String,
    pub bytes: Vec<u8>,
    pub checksum: String,
    pub encrypted: bool,
}

pub struct ArtifactBlobView {
    pub artifact_id: Seq<char>,
    pub bytes: Seq<u8>,
    pub checksum: Seq<char>,
    pub encrypted: bool,
}

impl View for ArtifactBlob {
    type V = ArtifactBlobView;

    open spec fn view(&self) -> ArtifactBlobView {
        ArtifactBlobView {
            artifact_id: self.artifact_id@,
            bytes: self.bytes@,
            checksum: self.checksum@,
            encrypted: self.encrypted,
        }
    }
}

impl Clone for ArtifactBlob {
    fn clone(&self) -> (r: Self)
        ensures
            r@ == self@,
    {
        ArtifactBlob {
            artifact_id: self.artifact_id.clone(),
            bytes: self.bytes.clone(),
            checksum: self.checksum.clone(),
            encrypted: self.encrypted,
        }
    }
}

impl ArtifactBlob {
    /// An encrypted artifact carrying the checksum of its bytes.
    pub fn new(artifact_id: &str, bytes: Vec<u8>) -> (r: Self)
        ensures
            r@ == (ArtifactBlobView {
                artifact_id: artifact_id@,
                bytes: bytes@,
                checksum: checksum_of(bytes@),
                encrypted: true,
            }),
    {
        let checksum = sha256_hex(bytes.as_slice());
        ArtifactBlob { artifact_id: String::from_str(artifact_id), bytes, checksum, encrypted: true }
    }
}

/// A blob is intact when its checksum is the checksum of its bytes.
pub open spec fn intact(b: ArtifactBlobView) -> bool {
    b.checksum == checksum_of(b.bytes)
}

/// Stored artifacts by identity, and the identities of transfers in flight.
pub struct ArtifactTransfer {
    store: Vec<ArtifactBlob>,
    inflight: Vec<String>,
}

pub open spec fn blob_pair(b: ArtifactBlob) -> (Seq<char>, ArtifactBlobView) {
    (b.artifact_id@, b@)
}

impl ArtifactTransfer {
    pub closed spec fn pairs(&self) -> Seq<(Seq<char>, ArtifactBlobView)> {
        self.store@.map_values(|b: ArtifactBlob| blob_pair(b))
    }

    /// Stored artifacts by identity.
    pub open spec fn artifacts(&self) -> Map<Seq<char>, ArtifactBlobView> {
        assoc(self.pairs())
    }

    /// Identities of transfers that were started and have not completed.
    pub closed spec fn pending(&self) -> Set<Seq<char>> {
        strs(self.inflight@).to_set()
    }

    /// Each artifact is stored once, and every stored artifact is intact.
    pub closed spec fn wf(&self) -> bool {
        &&& keys(self.pairs()).no_duplicates()
        &&& strs(self.inflight@).no_duplicates()
        &&& forall|i: int| 0 <= i < self.store@.len() ==> intact(#[trigger] self.store@[i]@)
    }

    pub fn new() -> (r: Self)
        ensures
            r.wf(),
            r.artifacts() == Map::<Seq<char>, ArtifactBlobView>::empty(),
            r.pending() == Set::<Seq<char>>::empty(),
    {
        let r = ArtifactTransfer { store: Vec::new(), inflight: Vec::new() };
        assert(r.pairs() =~= Seq::<(Seq<char>, ArtifactBlobView)>::empty());
        assert(r.artifacts() =~= Map::<Seq<char>, ArtifactBlobView>::empty());
        assert(r.pending() =~= Set::<Seq<char>>::empty());
        r
    }

    /// Every stored artifact is intact.
    pub proof fn lemma_intact(&self, id: Seq<char>)
        requires
            self.wf(),
            self.artifacts().contains_key(id),
        ensures
            intact(self.artifacts()[id]),
    {
        lemma_assoc_index(self.pairs(), id);
        let i = keys(self.pairs()).index_of(id);
        assert(self.pairs()[i] == blob_pair(self.store@[i]));
    }

    fn position(&self, id: &str) -> (r: Option<usize>)
        ensures
            match r {
                Some(i) => i < self.store@.len() && keys(self.pairs())[i as int] == id@,
                None => !keys(self.pairs()).contains(id@),
            },
    {
        let target = String::from_str(id);
        let mut i: usize = 0;
        while i < self.store.len()
            invariant
                i <= self.store.len(),
                target@ == id@,
                keys(self.pairs()).len() == self.store@.len(),
                forall|k: int| 0 <= k < i ==> keys(self.pairs())[k] != id@,
            decreases self.store.len() - i,
        {
            assert(keys(self.pairs())[i as int] == self.store@[i as int].artifact_id@);
            if self.store[i].artifact_id == target {
                return Some(i);
            }
            i += 1;
        }
        None
    }

    /// Stores a blob whose checksum matches its bytes, replacing any blob
    /// stored under the same identity; a mismatching blob is refused.
    pub fn put(&mut self, blob: ArtifactBlob) -> (r: Result<(), WorkerError>)
        requires
            old(self).wf(),
        ensures
            final(self).wf(),
            final(self).pending() == old(self).pending(),
            intact(blob@) ==> r is Ok && final(self).artifacts() == old(self).artifacts().insert(
                blob@.artifact_id,
                blob@,
            ),
            !intact(blob@) ==> (r matches Err(WorkerError::Integrity(m)) && m@ == blob@.artifact_id
                && final(self).artifacts() == old(self).artifacts()),
    {
        let sum = sha256_hex(blob.bytes.as_slice());
        if blob.checksum != sum {
            return Err(WorkerError::Integrity(blob.artifact_id));
        }
        let ghost old_pairs = self.pairs();
        let ghost bv = blob@;
        match self.position(blob.artifact_id.as_str()) {
            Some(i) => {
                proof { lemma_assoc_update(old_pairs, i as int, bv); }
                self.store.set(i, blob);
                assert(self.pairs() =~= old_pairs.update(i as int, (old_pairs[i as int].0, bv)));
            }
            None => {
                proof { lemma_assoc_push(old_pairs, bv.artifact_id, bv); }
                self.store.push(blob);
                assert(self.pairs() =~= old_pairs.push((bv.artifact_id, bv)));
            }
        }
        Ok(())
    }

    /// The blob stored under `artifact_id`.
    pub fn get(&self, artifact_id: &str) -> (r: Result<ArtifactBlob, WorkerError>)
        requires
            self.wf(),
        ensures
            self.artifacts().contains_key(artifact_id@) ==> (r matches Ok(b) && b@ == self.artifacts()[artifact_id@]),
            !self.artifacts().contains_key(artifact_id@) ==> (r matches Err(WorkerError::NotFound(m)) && m@ == artifact_id@),
    {
        proof { lemma_assoc_index(self.pairs(), artifact_id@); }
        match self.position(artifact_id) {
            Some(i) => {
                proof { lemma_assoc_get(self.pairs(), i as int); }
                assert(self.pairs()[i as int] == blob_pair(self.store@[i as int]));
                Ok(self.store[i].clone())
            }
            None => Err(WorkerError::NotFound(String::from_str(artifact_id))),
        }
    }

    fn inflight_position(&self, id: &str) -> (r: Option<usize>)
        ensures
            match r {
                Some(i) => i < self.inflight@.len() && self.inflight@[i as int]@ == id@,
                None => !strs(self.inflight@).contains(id@),
            },
    {
        let target = String::from_str(id);
        let mut i: usize = 0;
        while i < self.inflight.len()
            invariant
                i <= self.inflight.len(),
                target@ == id@,
                forall|k: int| 0 <= k < i ==> self.inflight@[k]@ != id@,
            decreases self.inflight.len() - i,
        {
            if self.inflight[i] == target {
                return Some(i);
            }
            i += 1;
        }
        assert forall|k: int| 0 <= k < strs(self.inflight@).len() implies strs(self.inflight@)[k]
            != id@ by {
            assert(strs(self.inflight@)[k] == self.inflight@[k]@);
        }
        None
    }

    /// Completes a resumed transfer: the transfer is marked in flight, the blob
    /// is stored as by `put`, and on success the mark is cleared.
    pub fn resume(&mut self, artifact_id: &str, blob: ArtifactBlob) -> (r: Result<(), WorkerError>)
        requires
            old(self).wf(),
        ensures
            final(self).wf(),
            intact(blob@) ==> r is Ok && final(self).artifacts() == old(self).artifacts().insert(
                blob@.artifact_id,
                blob@,
            ) && final(self).pending() == old(self).pending().remove(artifact_id@),
            !intact(blob@) ==> (r matches Err(WorkerError::Integrity(m)) && m@ == blob@.artifact_id
                && final(self).artifacts() == old(self).artifacts()
                && final(self).pending() == old(self).pending().insert(artifact_id@)),
    {
        let ghost old_in = strs(self.inflight@);
        match self.inflight_position(artifact_id) {
            None => {
                self.inflight.push(String::from_str(artifact_id));
                assert(strs(self.inflight@) =~= old_in.push(artifact_id@));
                proof { lemma_push_set(old_in, artifact_id@); }
            }
            Some(i) => {
                proof {
                    assert(old_in[i as int] == artifact_id@);
                    lemma_contains_set(old_in, artifact_id@);
                }
            }
        }
        assert(self.pending() == old(self).pending().insert(artifact_id@));
        self.put(blob)?;
        let ghost mid_in = strs(self.inflight@);
        match self.inflight_position(artifact_id) {
            Some(i) => {
                self.inflight.remove(i);
                assert(strs(self.inflight@) =~= mid_in.remove(i as int));
                proof {
                    assert(mid_in[i as int] == artifact_id@);
                    lemma_remove_set(mid_in, i as int);
                    assert(old(self).pending().insert(artifact_id@).remove(artifact_id@) =~= old(self).pending().remove(artifact_id@));
                }
            }
            None => {
                assert(mid_in.to_set().contains(artifact_id@));
                assert(false);
            }
        }
        Ok(())
    }
}

} // verus!
