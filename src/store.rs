//! The document collection: records keyed by identifier, with the primitives
//! the accessors use (insert, find one, find all, find-and-update, delete).

use crate::codec::{same_id, DocId};
use crate::model::{updated_record, Memo};
use vstd::prelude::*;

verus! {

/// A record that a collection can hold: it may carry an identifier, and it
/// can be given one.
pub trait Document: Sized + View {
    /// The identifier that a record's view carries, if any.
    spec fn key(v: Self::V) -> Option<Seq<u8>>;

    /// A record's view with its identifier set to `id`, all else kept.
    spec fn keyed(v: Self::V, id: Seq<u8>) -> Self::V;

    /// Setting the identifier sets it.
    proof fn lemma_keyed(v: Self::V, id: Seq<u8>)
        ensures
            Self::key(Self::keyed(v, id)) == Some(id),
    ;

    /// The record's identifier.
    fn doc_id(&self) -> (r: Option<DocId>)
        ensures
            r.is_some() == Self::key(self@).is_some(),
            r.is_some() ==> Self::key(self@) == Some(r.unwrap()@),
    ;

    /// The record with its identifier set to `id`.
    fn with_id(self, id: DocId) -> (r: Self)
        ensures
            r@ == Self::keyed(self@, id@),
    ;

    /// A copy of the record.
    fn duplicate(&self) -> (r: Self)
        ensures
            r@ == self@,
    ;
}

/// A failure reported by the collection.
#[derive(Clone, Copy, Debug, PartialEq, Eq, Structural)]
pub enum StoreError {
    /// An insert named an identifier that is already stored.
    DuplicateKey,
    /// A record written a moment ago could not be read back.
    MissingAfterWrite,
}

/// The identifier of the record at position `i`.
spec fn key_of<R: Document>(docs: Seq<R>, i: int) -> Seq<u8> {
    R::key(docs[i]@).unwrap()
}

/// Every record has an identifier, no two share one, and the records are
/// exactly the entries of `model`.
spec fn consistent<R: Document>(docs: Seq<R>, model: Map<Seq<u8>, R::V>) -> bool {
    &&& forall|i: int| 0 <= i < docs.len() ==> R::key((#[trigger] docs[i])@) is Some
    &&& forall|i: int, j: int|
        0 <= i < docs.len() && 0 <= j < docs.len() && i != j ==> #[trigger] key_of(docs, i)
            != #[trigger] key_of(docs, j)
    &&& forall|i: int|
        0 <= i < docs.len() ==> model.contains_key(#[trigger] key_of(docs, i)) && model[key_of(
            docs,
            i,
        )] == docs[i]@
    &&& forall|k: Seq<u8>|
        #[trigger] model.contains_key(k) ==> exists|i: int|
            0 <= i < docs.len() && #[trigger] key_of(docs, i) == k
}

/// A collection of records, each stored under its own identifier.
pub struct Collection<R: Document> {
    docs: Vec<R>,
    model: Ghost<Map<Seq<u8>, R::V>>,
}

impl<R: Document> View for Collection<R> {
    type V = Map<Seq<u8>, R::V>;

    closed spec fn view(&self) -> Map<Seq<u8>, R::V> {
        self.model@
    }
}

/// Whether `recs` lists every record of `m` once each, in some order.
pub open spec fn lists_all<R: Document>(recs: Seq<R::V>, m: Map<Seq<u8>, R::V>) -> bool {
    &&& forall|i: int|
        0 <= i < recs.len() ==> R::key(#[trigger] recs[i]) is Some && m.contains_key(
            R::key(recs[i]).unwrap(),
        ) && m[R::key(recs[i]).unwrap()] == recs[i]
    &&& forall|i: int, j: int|
        0 <= i < recs.len() && 0 <= j < recs.len() && i != j ==> R::key(#[trigger] recs[i]) != R::key(
            #[trigger] recs[j],
        )
    &&& forall|k: Seq<u8>| #[trigger]
        m.contains_key(k) ==> exists|i: int| 0 <= i < recs.len() && R::key(#[trigger] recs[i]) == Some(k)
}

/// The views of a sequence of records.
pub open spec fn views<R: Document>(rs: Seq<R>) -> Seq<R::V> {
    rs.map_values(|r: R| r@)
}

impl<R: Document> Collection<R> {
    /// The collection's invariant: every stored record has an identifier, no
    /// two share one, and the records are exactly the view's entries.
    pub closed spec fn wf(&self) -> bool {
        consistent(self.docs@, self.model@)
    }

    /// An empty collection.
    pub fn new() -> (r: Collection<R>)
        ensures
            r.wf(),
            r@ == Map::<Seq<u8>, R::V>::empty(),
    {
        Collection { docs: Vec::new(), model: Ghost(Map::empty()) }
    }

    fn index_of(&self, id: &DocId) -> (r: Option<usize>)
        requires
            self.wf(),
        ensures
            match r {
                Some(i) => i < self.docs@.len() && key_of(self.docs@, i as int) == id@,
                None => !self@.contains_key(id@),
            },
    {
        let mut i: usize = 0;
        while i < self.docs.len()
            invariant
                self.wf(),
                0 <= i <= self.docs@.len(),
                forall|j: int| 0 <= j < i ==> #[trigger] key_of(self.docs@, j) != id@,
            decreases self.docs@.len() - i,
        {
            let found = match self.docs[i].doc_id() {
                Some(k) => same_id(&k, id),
                None => false,
            };
            if found {
                return Some(i);
            }
            i = i + 1;
        }
        None
    }

    /// The record stored under `id`, if any.
    pub fn find_one(&self, id: &DocId) -> (r: Option<R>)
        requires
            self.wf(),
        ensures
            r.is_some() == self@.contains_key(id@),
            r.is_some() ==> r.unwrap()@ == self@[id@],
    {
        match self.index_of(id) {
            Some(i) => Some(self.docs[i].duplicate()),
            None => None,
        }
    }

    /// Every stored record, each once, in no promised order.
    pub fn find_all(&self) -> (r: Vec<R>)
        requires
            self.wf(),
        ensures
            lists_all::<R>(views(r@), self@),
    {
        let mut out: Vec<R> = Vec::new();
        let mut i: usize = 0;
        while i < self.docs.len()
            invariant
                self.wf(),
                0 <= i <= self.docs@.len(),
                out@.len() == i,
                forall|j: int| 0 <= j < i ==> (#[trigger] out@[j])@ == self.docs@[j]@,
            decreases self.docs@.len() - i,
        {
            out.push(self.docs[i].duplicate());
            i = i + 1;
        }
        let ghost vs = views(out@);
        assert forall|i: int| 0 <= i < vs.len() implies R::key(#[trigger] vs[i]) is Some
            && self@.contains_key(R::key(vs[i]).unwrap()) && self@[R::key(vs[i]).unwrap()] == vs[i] by {
            assert(vs[i] == self.docs@[i]@);
            assert(key_of(self.docs@, i) == R::key(vs[i]).unwrap());
        }
        assert forall|i: int, j: int|
            0 <= i < vs.len() && 0 <= j < vs.len() && i != j implies R::key(#[trigger] vs[i]) != R::key(
            #[trigger] vs[j],
        ) by {
            assert(vs[i] == self.docs@[i]@);
            assert(vs[j] == self.docs@[j]@);
            assert(key_of(self.docs@, i) != key_of(self.docs@, j));
        }
        assert forall|k: Seq<u8>| #[trigger] self@.contains_key(k) implies exists|i: int|
            0 <= i < vs.len() && R::key(#[trigger] vs[i]) == Some(k) by {
            let i = choose|i: int| 0 <= i < self.docs@.len() && #[trigger] key_of(self.docs@, i) == k;
            assert(vs[i] == self.docs@[i]@);
            assert(R::key(vs[i]) == Some(k));
        }
        out
    }

    /// Stores `doc` under `id`; fails, changing nothing, when `id` is taken.
    pub fn insert_one(&mut self, doc: R, id: DocId) -> (r: Result<DocId, StoreError>)
        requires
            old(self).wf(),
        ensures
            final(self).wf(),
            old(self)@.contains_key(id@) ==> r == Err::<DocId, StoreError>(StoreError::DuplicateKey)
                && final(self)@ == old(self)@,
            !old(self)@.contains_key(id@) ==> r.is_ok() && r.unwrap()@ == id@ && final(self)@
                == old(self)@.insert(id@, R::keyed(doc@, id@)),
    {
        if let Some(_) = self.index_of(&id) {
            return Err(StoreError::DuplicateKey);
        }
        let ghost doc_view = doc@;
        let stored = doc.with_id(id);
        proof {
            R::lemma_keyed(doc_view, id@);
        }
        let ghost old_docs = self.docs@;
        let ghost old_model = self.model@;
        let ghost stored_view = stored@;
        self.docs.push(stored);
        self.model = Ghost(self.model@.insert(id@, stored_view));
        proof {
            let n = old_docs.len() as int;
            assert(self.docs@[n]@ == stored_view);
            assert(key_of(self.docs@, n) == id@);
            assert forall|i: int| 0 <= i < n implies #[trigger] key_of(self.docs@, i) == key_of(old_docs, i) by {
                assert(self.docs@[i] == old_docs[i]);
            }
            assert forall|i: int| 0 <= i < self.docs@.len() implies R::key((#[trigger] self.docs@[i])@) is Some by {
                if i < n {
                    assert(self.docs@[i] == old_docs[i]);
                }
            }
            assert forall|i: int| 0 <= i < n implies old_model.contains_key(#[trigger] key_of(self.docs@, i)) by {
                assert(self.docs@[i] == old_docs[i]);
            }
            assert forall|k: Seq<u8>| #[trigger] self.model@.contains_key(k) implies exists|i: int|
                0 <= i < self.docs@.len() && #[trigger] key_of(self.docs@, i) == k by {
                if k == id@ {
                    assert(key_of(self.docs@, n) == k);
                } else {
                    assert(old_model.contains_key(k));
                    let i = choose|i: int| 0 <= i < old_docs.len() && key_of(old_docs, i) == k;
                    assert(key_of(self.docs@, i) == k);
                }
            }
        }
        Ok(id)
    }

    /// Removes the record under `id`; true when there was one.
    pub fn delete_one(&mut self, id: &DocId) -> (r: bool)
        requires
            old(self).wf(),
        ensures
            final(self).wf(),
            r == old(self)@.contains_key(id@),
            final(self)@ == old(self)@.remove(id@),
    {
        match self.index_of(id) {
            None => {
                assert(self.model@.remove(id@) =~= self.model@);
                false
            },
            Some(i) => {
                let ghost old_docs = self.docs@;
                let ghost old_model = self.model@;
                let _ = self.docs.remove(i);
                self.model = Ghost(self.model@.remove(id@));
                proof {
                    let n = old_docs.len() as int;
                    assert forall|j: int| 0 <= j < self.docs@.len() implies self.docs@[j] == (if j < i {
                        old_docs[j]
                    } else {
                        old_docs[j + 1]
                    }) by {}
                    assert forall|j: int| 0 <= j < self.docs@.len() implies R::key((#[trigger] self.docs@[j])@) is Some by {
                        if j >= i {
                            assert(R::key(old_docs[j + 1]@) is Some);
                        }
                    }
                    assert forall|j: int| 0 <= j < self.docs@.len() implies #[trigger] key_of(self.docs@, j)
                        == key_of(old_docs, if j < i { j } else { j + 1 }) by {}
                    assert forall|a: int, b: int|
                        0 <= a < self.docs@.len() && 0 <= b < self.docs@.len() && a != b implies #[trigger] key_of(self.docs@, a) != #[trigger] key_of(self.docs@, b) by {
                        let a1 = if a < i { a } else { a + 1 };
                        let b1 = if b < i { b } else { b + 1 };
                        assert(key_of(old_docs, a1) != key_of(old_docs, b1));
                    }
                    assert forall|j: int| 0 <= j < self.docs@.len() implies self.model@.contains_key(
                        #[trigger] key_of(self.docs@, j),
                    ) && self.model@[key_of(self.docs@, j)] == self.docs@[j]@ by {
                        let j1 = if j < i { j } else { j + 1 };
                        assert(key_of(old_docs, j1) != key_of(old_docs, i as int));
                        assert(old_model.contains_key(key_of(old_docs, j1)));
                    }
                    assert forall|k: Seq<u8>| #[trigger] self.model@.contains_key(k) implies exists|
                        j: int,
                    | 0 <= j < self.docs@.len() && #[trigger] key_of(self.docs@, j) == k by {
                        assert(old_model.contains_key(k));
                        let j = choose|j: int| 0 <= j < n && key_of(old_docs, j) == k;
                        assert(j != i);
                        if j < i {
                            assert(key_of(self.docs@, j) == k);
                        } else {
                            assert(key_of(self.docs@, j - 1) == k);
                        }
                    }
                }
                true
            },
        }
    }
}

impl Collection<Memo> {
    /// Replaces the title and content of the record under `id` and stamps
    /// `updated_at`, in one step; returns the record as it is afterwards, or
    /// `None`, changing nothing, when no record is stored under `id`.
    pub fn find_one_and_update(&mut self, id: &DocId, title: String, content: String, now: i64) -> (r:
        Option<Memo>)
        requires
            old(self).wf(),
        ensures
            final(self).wf(),
            r.is_some() == old(self)@.contains_key(id@),
            !old(self)@.contains_key(id@) ==> final(self)@ == old(self)@,
            old(self)@.contains_key(id@) ==> r.unwrap()@ == updated_record(
                old(self)@[id@],
                title@,
                content@,
                now as int,
            ) && final(self)@ == old(self)@.insert(id@, r.unwrap()@),
    {
        match self.index_of(id) {
            None => None,
            Some(i) => {
                let ghost old_docs = self.docs@;
                let ghost old_model = self.model@;
                let prev = self.docs[i].duplicate();
                let next = Memo { title, content, updated_at: now, ..prev };
                let result = next.duplicate();
                self.docs.set(i, next);
                self.model = Ghost(self.model@.insert(id@, next@));
                proof {
                    assert forall|j: int| 0 <= j < self.docs@.len() implies #[trigger] key_of(self.docs@, j)
                        == key_of(old_docs, j) by {
                        if j != i {
                            assert(self.docs@[j] == old_docs[j]);
                        }
                    }
                    assert forall|j: int| 0 <= j < self.docs@.len() implies Memo::key((#[trigger] self.docs@[j])@) is Some by {
                        if j != i {
                            assert(self.docs@[j] == old_docs[j]);
                        }
                    }
                    assert forall|j: int| 0 <= j < self.docs@.len() implies self.model@.contains_key(
                        #[trigger] key_of(self.docs@, j),
                    ) && self.model@[key_of(self.docs@, j)] == self.docs@[j]@ by {
                        if j != i {
                            assert(self.docs@[j] == old_docs[j]);
                            assert(key_of(old_docs, j) != key_of(old_docs, i as int));
                        }
                    }
                    assert forall|k: Seq<u8>| #[trigger] self.model@.contains_key(k) implies exists|
                        j: int,
                    | 0 <= j < self.docs@.len() && #[trigger] key_of(self.docs@, j) == k by {
                        if k == id@ {
                            assert(key_of(self.docs@, i as int) == k);
                        } else {
                            assert(old_model.contains_key(k));
                            let j = choose|j: int|
                                0 <= j < old_docs.len() && key_of(old_docs, j) == k;
                            assert(key_of(self.docs@, j) == k);
                        }
                    }
                }
                Some(result)
            },
        }
    }
}

} // verus!
