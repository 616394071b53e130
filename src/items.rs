//! The item resource: the same document-backed resource, whose body field is
//! called `message` and whose identifier travels as hexadecimal text.

use crate::codec::{decode_id, encode_id, hex_text, DocId};
use crate::db::{create_memo_db, delete_memo_db, get_memo_db, list_memos_db, update_memo_db};
use crate::error::{ApiError, ErrorKind};
use crate::handlers::{create_outcome, delete_outcome, get_outcome, update_outcome};
use crate::model::{Memo, MemoView};
use crate::response::ApiResponse;
use crate::store::{lists_all, views, Collection};
use crate::validation::{
    field_names, validate_fields, violated_fields, CreateMemoRequest, UpdateMemoRequest,
};
use vstd::prelude::*;

verus! {

/// An item as clients see it.
#[derive(Clone, Debug)]
pub struct Item {
    pub id: Option<String>,
    pub title: String,
    pub message: String,
}

/// The payload that creates or replaces an item.
#[derive(Clone, Debug)]
pub struct ItemData {
    pub title: String,
    pub message: String,
}

/// An item's content as mathematical values.
pub struct ItemView {
    pub id: Option<Seq<char>>,
    pub title: Seq<char>,
    pub message: Seq<char>,
}

impl View for Item {
    type V = ItemView;

    open spec fn view(&self) -> ItemView {
        ItemView {
            id: match self.id {
                Some(s) => Some(s@),
                None => None,
            },
            title: self.title@,
            message: self.message@,
        }
    }
}

/// How a stored record shows as an item: its identifier as hexadecimal text.
pub open spec fn item_of(m: MemoView) -> ItemView {
    ItemView {
        id: match m.id {
            Some(b) => Some(hex_text(b)),
            None => None,
        },
        title: m.title,
        message: m.content,
    }
}

/// Whether a response carries the outcome `o`, shown as an item.
pub open spec fn answers_item(r: Result<ApiResponse<Item>, ApiError>, o: Result<MemoView, ErrorKind>) -> bool {
    match (r, o) {
        (Ok(resp), Ok(v)) => resp.success && resp.data@ == item_of(v),
        (Err(e), Err(k)) => e.is_kind(k),
        _ => false,
    }
}

/// Whether a validation error lists exactly the fields that break their rule.
pub open spec fn reports_item_fields(
    r: Result<ApiResponse<Item>, ApiError>,
    title: Seq<char>,
    message: Seq<char>,
) -> bool {
    r.is_err() && r.unwrap_err().error.details.is_some() ==> field_names(
        r.unwrap_err().error.details.unwrap()@,
    ) == violated_fields(title, message, "message"@)
}

impl Item {
    /// The item that a stored record shows as.
    pub fn from_record(m: &Memo) -> (r: Item)
        ensures
            r@ == item_of(m@),
    {
        let id = match &m.id {
            Some(i) => Some(encode_id(i)),
            None => None,
        };
        Item { id, title: m.title.clone(), message: m.content.clone() }
    }
}

/// Creates an item under `new_id`, stamped `now`.
pub fn create_item(coll: &mut Collection<Memo>, payload: ItemData, now: i64, new_id: DocId) -> (r: Result<
    ApiResponse<Item>,
    ApiError,
>)
    requires
        old(coll).wf(),
    ensures
        final(coll).wf(),
        answers_item(r, create_outcome(old(coll)@, payload.title@, payload.message@, now as int, new_id@).0),
        final(coll)@ == create_outcome(old(coll)@, payload.title@, payload.message@, now as int, new_id@).1,
        reports_item_fields(r, payload.title@, payload.message@),
{
    if let Err(errors) = validate_fields(payload.title.as_str(), payload.message.as_str(), "message") {
        return Err(ApiError::validation("input validation failed", errors));
    }
    let req = CreateMemoRequest { title: payload.title, content: payload.message };
    match create_memo_db(coll, req, now, new_id) {
        Ok(rec) => Ok(ApiResponse::new(Item::from_record(&rec))),
        Err(_) => Err(ApiError::new(ErrorKind::Internal, "failed to create the item")),
    }
}

/// Every item, each once.
pub fn get_all_items(coll: &Collection<Memo>) -> (r: Result<ApiResponse<Vec<Item>>, ApiError>)
    requires
        coll.wf(),
    ensures
        r.is_ok(),
        r.unwrap().success,
        exists|recs: Seq<MemoView>|
            #[trigger] lists_all::<Memo>(recs, coll@) && recs.len() == r.unwrap().data@.len() && forall|i: int|
                0 <= i < recs.len() ==> (#[trigger] r.unwrap().data@[i])@ == item_of(recs[i]),
{
    let recs = list_memos_db(coll);
    let mut items: Vec<Item> = Vec::new();
    let mut i: usize = 0;
    while i < recs.len()
        invariant
            0 <= i <= recs@.len(),
            items@.len() == i,
            forall|j: int| 0 <= j < i ==> (#[trigger] items@[j])@ == item_of(recs@[j]@),
        decreases recs@.len() - i,
    {
        items.push(Item::from_record(&recs[i]));
        i = i + 1;
    }
    let ghost vs = views(recs@);
    assert(lists_all::<Memo>(vs, coll@));
    let r = Ok(ApiResponse::new(items));
    assert(forall|i: int| 0 <= i < vs.len() ==> (#[trigger] r.unwrap().data@[i])@ == item_of(vs[i]));
    r
}

/// The item whose identifier text is `id`.
pub fn get_item_by_id(coll: &Collection<Memo>, id: &str) -> (r: Result<ApiResponse<Item>, ApiError>)
    requires
        coll.wf(),
    ensures
        answers_item(r, get_outcome(coll@, id@)),
{
    let object_id = match decode_id(id) {
        Some(oid) => oid,
        None => {
            return Err(ApiError::new(ErrorKind::BadRequest, "invalid id format"));
        },
    };
    match get_memo_db(coll, &object_id) {
        Some(rec) => Ok(ApiResponse::new(Item::from_record(&rec))),
        None => Err(ApiError::new(ErrorKind::NotFound, "item not found")),
    }
}

/// Replaces title and message of the item whose identifier text is `id`.
pub fn update_item(coll: &mut Collection<Memo>, id: &str, payload: ItemData, now: i64) -> (r: Result<
    ApiResponse<Item>,
    ApiError,
>)
    requires
        old(coll).wf(),
    ensures
        final(coll).wf(),
        answers_item(r, update_outcome(old(coll)@, id@, payload.title@, payload.message@, now as int).0),
        final(coll)@ == update_outcome(old(coll)@, id@, payload.title@, payload.message@, now as int).1,
        reports_item_fields(r, payload.title@, payload.message@),
{
    if let Err(errors) = validate_fields(payload.title.as_str(), payload.message.as_str(), "message") {
        return Err(ApiError::validation("input validation failed", errors));
    }
    let object_id = match decode_id(id) {
        Some(oid) => oid,
        None => {
            return Err(ApiError::new(ErrorKind::BadRequest, "invalid id format"));
        },
    };
    let req = UpdateMemoRequest { title: payload.title, content: payload.message };
    match update_memo_db(coll, &object_id, req, now) {
        Some(rec) => Ok(ApiResponse::new(Item::from_record(&rec))),
        None => Err(ApiError::new(ErrorKind::NotFound, "item not found")),
    }
}

/// Removes the item whose identifier text is `id`.
pub fn delete_item(coll: &mut Collection<Memo>, id: &str) -> (r: Result<ApiResponse<()>, ApiError>)
    requires
        old(coll).wf(),
    ensures
        final(coll).wf(),
        match (r, delete_outcome(old(coll)@, id@).0) {
            (Ok(resp), Ok(_)) => resp.success,
            (Err(e), Err(k)) => e.is_kind(k),
            _ => false,
        },
        final(coll)@ == delete_outcome(old(coll)@, id@).1,
{
    let object_id = match decode_id(id) {
        Some(oid) => oid,
        None => {
            return Err(ApiError::new(ErrorKind::BadRequest, "invalid id format"));
        },
    };
    if delete_memo_db(coll, &object_id) {
        Ok(ApiResponse::new(()))
    } else {
        Err(ApiError::new(ErrorKind::NotFound, "item not found"))
    }
}

} // verus!
