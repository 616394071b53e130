//! The stored record and its mathematical view.

use crate::codec::DocId;
use crate::store::Document;
use vstd::prelude::*;

verus! {

/// A memo as the store holds it: `id` is absent until the record is stored,
/// timestamps are milliseconds since the epoch.
#[derive(Clone, Debug)]
pub struct Memo {
    pub id: Option<DocId>,
    pub title: String,
    pub content: String,
    pub created_at: i64,
    pub updated_at: i64,
}

/// What a memo holds, as mathematical values.
pub struct MemoView {
    pub id: Option<Seq<u8>>,
    pub title: Seq<char>,
    pub content: Seq<char>,
    pub created_at: int,
    pub updated_at: int,
}

impl View for Memo {
    type V = MemoView;

    open spec fn view(&self) -> MemoView {
        MemoView {
            id: match self.id {
                Some(i) => Some(i@),
                None => None,
            },
            title: self.title@,
            content: self.content@,
            created_at: self.created_at as int,
            updated_at: self.updated_at as int,
        }
    }
}

/// The record that creation stores under `id`: both timestamps are `now`.
pub open spec fn new_record(id: Seq<u8>, title: Seq<char>, content: Seq<char>, now: int) -> MemoView {
    MemoView { id: Some(id), title, content, created_at: now, updated_at: now }
}

/// A record with title and content replaced and `updated_at` stamped.
pub open spec fn updated_record(old: MemoView, title: Seq<char>, content: Seq<char>, now: int) -> MemoView {
    MemoView { title, content, updated_at: now, ..old }
}

impl Document for Memo {
    open spec fn key(v: MemoView) -> Option<Seq<u8>> {
        v.id
    }

    open spec fn keyed(v: MemoView, id: Seq<u8>) -> MemoView {
        MemoView { id: Some(id), ..v }
    }

    proof fn lemma_keyed(v: MemoView, id: Seq<u8>) {
    }

    fn doc_id(&self) -> (r: Option<DocId>) {
        self.id
    }

    fn with_id(self, id: DocId) -> (r: Memo) {
        Memo { id: Some(id), ..self }
    }

    fn duplicate(&self) -> (r: Memo) {
        Memo {
            id: self.id,
            title: self.title.clone(),
            content: self.content.clone(),
            created_at: self.created_at,
            updated_at: self.updated_at,
        }
    }
}

} // verus!
