//! The persistence accessor: the one place that talks to the collection.

use crate::codec::DocId;
use crate::model::{new_record, updated_record, Memo};
use crate::store::{lists_all, views, Collection, StoreError};
use crate::validation::{CreateMemoRequest, UpdateMemoRequest};
use vstd::prelude::*;

verus! {

/// Stores a new memo under `new_id` with both timestamps `now`, then reads it
/// back and returns the copy that was read.
pub fn create_memo_db(coll: &mut Collection<Memo>, req: CreateMemoRequest, now: i64, new_id: DocId) -> (r:
    Result<Memo, StoreError>)
    requires
        old(coll).wf(),
    ensures
        final(coll).wf(),
        old(coll)@.contains_key(new_id@) ==> r == Err::<Memo, StoreError>(StoreError::DuplicateKey)
            && final(coll)@ == old(coll)@,
        !old(coll)@.contains_key(new_id@) ==> r.is_ok() && r.unwrap()@ == new_record(
            new_id@,
            req.title@,
            req.content@,
            now as int,
        ) && final(coll)@ == old(coll)@.insert(new_id@, r.unwrap()@),
{
    let memo = Memo {
        id: None,
        title: req.title,
        content: req.content,
        created_at: now,
        updated_at: now,
    };
    let id = match coll.insert_one(memo, new_id) {
        Ok(id) => id,
        Err(e) => {
            return Err(e);
        },
    };
    match coll.find_one(&id) {
        Some(inserted) => Ok(inserted),
        None => Err(StoreError::MissingAfterWrite),
    }
}

/// Every memo of the collection, each once.
pub fn list_memos_db(coll: &Collection<Memo>) -> (r: Vec<Memo>)
    requires
        coll.wf(),
    ensures
        lists_all::<Memo>(views(r@), coll@),
{
    coll.find_all()
}

/// The memo stored under `id`, or `None`.
pub fn get_memo_db(coll: &Collection<Memo>, id: &DocId) -> (r: Option<Memo>)
    requires
        coll.wf(),
    ensures
        r.is_some() == coll@.contains_key(id@),
        r.is_some() ==> r.unwrap()@ == coll@[id@],
{
    coll.find_one(id)
}

/// Replaces title and content of the memo under `id` and stamps
/// `updated_at = now` in one step; returns the memo as it is afterwards.
pub fn update_memo_db(coll: &mut Collection<Memo>, id: &DocId, req: UpdateMemoRequest, now: i64) -> (r: Option<Memo>)
    requires
        old(coll).wf(),
    ensures
        final(coll).wf(),
        r.is_some() == old(coll)@.contains_key(id@),
        !old(coll)@.contains_key(id@) ==> final(coll)@ == old(coll)@,
        old(coll)@.contains_key(id@) ==> r.unwrap()@ == updated_record(
            old(coll)@[id@],
            req.title@,
            req.content@,
            now as int,
        ) && final(coll)@ == old(coll)@.insert(id@, r.unwrap()@),
{
    coll.find_one_and_update(id, req.title, req.content, now)
}

/// Removes the memo under `id`; true when one was removed.
pub fn delete_memo_db(coll: &mut Collection<Memo>, id: &DocId) -> (r: bool)
    requires
        old(coll).wf(),
    ensures
        final(coll).wf(),
        r == old(coll)@.contains_key(id@),
        final(coll)@ == old(coll)@.remove(id@),
{
    coll.delete_one(id)
}

} // verus!
