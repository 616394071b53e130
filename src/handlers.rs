//! The resource handlers: validate, decode the path identifier, call the
//! accessor, and turn the result or the failure into an envelope.

use crate::codec::{decode_id, fresh_object_id, id_of_text, is_id_text, DocId};
use crate::db::{create_memo_db, delete_memo_db, get_memo_db, list_memos_db, update_memo_db};
use crate::error::{ApiError, ErrorKind};
use crate::model::{new_record, updated_record, Memo, MemoView};
use crate::response::ApiResponse;
use crate::store::{lists_all, views, Collection};
use crate::validation::{
    field_names, payload_ok, violated_fields, CreateMemoRequest, FieldError, UpdateMemoRequest,
};
use vstd::prelude::*;

verus! {

/// What a create request yields on a collection, and the collection after it.
/// A taken identifier is a store failure.
pub open spec fn create_outcome(
    m: Map<Seq<u8>, MemoView>,
    title: Seq<char>,
    content: Seq<char>,
    now: int,
    id: Seq<u8>,
) -> (Result<MemoView, ErrorKind>, Map<Seq<u8>, MemoView>) {
    if !payload_ok(title, content) {
        (Err(ErrorKind::Validation), m)
    } else if m.contains_key(id) {
        (Err(ErrorKind::Internal), m)
    } else {
        (Ok(new_record(id, title, content, now)), m.insert(id, new_record(id, title, content, now)))
    }
}

/// What a get request for identifier text yields on a collection.
pub open spec fn get_outcome(m: Map<Seq<u8>, MemoView>, id_text: Seq<char>) -> Result<
    MemoView,
    ErrorKind,
> {
    if !is_id_text(id_text) {
        Err(ErrorKind::BadRequest)
    } else if !m.contains_key(id_of_text(id_text)) {
        Err(ErrorKind::NotFound)
    } else {
        Ok(m[id_of_text(id_text)])
    }
}

/// What an update request yields on a collection, and the collection after it.
pub open spec fn update_outcome(
    m: Map<Seq<u8>, MemoView>,
    id_text: Seq<char>,
    title: Seq<char>,
    content: Seq<char>,
    now: int,
) -> (Result<MemoView, ErrorKind>, Map<Seq<u8>, MemoView>) {
    if !payload_ok(title, content) {
        (Err(ErrorKind::Validation), m)
    } else if !is_id_text(id_text) {
        (Err(ErrorKind::BadRequest), m)
    } else if !m.contains_key(id_of_text(id_text)) {
        (Err(ErrorKind::NotFound), m)
    } else {
        let id = id_of_text(id_text);
        let rec = updated_record(m[id], title, content, now);
        (Ok(rec), m.insert(id, rec))
    }
}

/// What a delete request yields on a collection, and the collection after it.
pub open spec fn delete_outcome(m: Map<Seq<u8>, MemoView>, id_text: Seq<char>) -> (Result<
    (),
    ErrorKind,
>, Map<Seq<u8>, MemoView>) {
    if !is_id_text(id_text) {
        (Err(ErrorKind::BadRequest), m)
    } else if !m.contains_key(id_of_text(id_text)) {
        (Err(ErrorKind::NotFound), m)
    } else {
        (Ok(()), m.remove(id_of_text(id_text)))
    }
}

/// Whether a response carries the outcome `o`: a success envelope with that
/// record, or the error envelope of that kind.
pub open spec fn answers(r: Result<ApiResponse<Memo>, ApiError>, o: Result<MemoView, ErrorKind>) -> bool {
    match (r, o) {
        (Ok(resp), Ok(v)) => resp.success && resp.data@ == v,
        (Err(e), Err(k)) => e.is_kind(k),
        _ => false,
    }
}

/// Whether a response without payload carries the outcome `o`.
pub open spec fn answers_empty(r: Result<ApiResponse<()>, ApiError>, o: Result<(), ErrorKind>) -> bool {
    match (r, o) {
        (Ok(resp), Ok(_)) => resp.success,
        (Err(e), Err(k)) => e.is_kind(k),
        _ => false,
    }
}

/// Whether a validation error lists exactly the fields that break their rule.
pub open spec fn reports_fields(
    r: Result<ApiResponse<Memo>, ApiError>,
    title: Seq<char>,
    content: Seq<char>,
) -> bool {
    r.is_err() && r.unwrap_err().error.details.is_some() ==> field_names(
        r.unwrap_err().error.details.unwrap()@,
    ) == violated_fields(title, content, "content"@)
}

fn validation_error(errors: Vec<FieldError>) -> (r: ApiError)
    ensures
        r.is_kind(ErrorKind::Validation),
        r.error.details == Some(errors),
{
    ApiError::validation("input validation failed", errors)
}

/// Creates a memo under `new_id` with both timestamps `now`.
pub fn create_memo_handler(coll: &mut Collection<Memo>, req: CreateMemoRequest, now: i64, new_id: DocId) -> (r:
    Result<ApiResponse<Memo>, ApiError>)
    requires
        old(coll).wf(),
    ensures
        final(coll).wf(),
        answers(r, create_outcome(old(coll)@, req.title@, req.content@, now as int, new_id@).0),
        final(coll)@ == create_outcome(old(coll)@, req.title@, req.content@, now as int, new_id@).1,
        reports_fields(r, req.title@, req.content@),
{
    if let Err(errors) = req.validate() {
        return Err(validation_error(errors));
    }
    match create_memo_db(coll, req, now, new_id) {
        Ok(memo) => Ok(ApiResponse::new(memo)),
        Err(_) => Err(ApiError::new(ErrorKind::Internal, "failed to create the memo")),
    }
}

/// Every memo of the collection, each once, in a success envelope.
pub fn list_memos_handler(coll: &Collection<Memo>) -> (r: Result<ApiResponse<Vec<Memo>>, ApiError>)
    requires
        coll.wf(),
    ensures
        r.is_ok(),
        r.unwrap().success,
        lists_all::<Memo>(views(r.unwrap().data@), coll@),
{
    Ok(ApiResponse::new(list_memos_db(coll)))
}

/// The memo whose identifier text is `id`.
pub fn get_memo_handler(coll: &Collection<Memo>, id: &str) -> (r: Result<ApiResponse<Memo>, ApiError>)
    requires
        coll.wf(),
    ensures
        answers(r, get_outcome(coll@, id@)),
{
    let obj_id = match decode_id(id) {
        Some(oid) => oid,
        None => {
            return Err(ApiError::new(ErrorKind::BadRequest, "invalid id format"));
        },
    };
    match get_memo_db(coll, &obj_id) {
        Some(memo) => Ok(ApiResponse::new(memo)),
        None => Err(ApiError::new(ErrorKind::NotFound, "memo not found")),
    }
}

/// Replaces title and content of the memo whose identifier text is `id`,
/// stamping `updated_at = now`.
pub fn update_memo_handler(coll: &mut Collection<Memo>, id: &str, req: UpdateMemoRequest, now: i64) -> (r:
    Result<ApiResponse<Memo>, ApiError>)
    requires
        old(coll).wf(),
    ensures
        final(coll).wf(),
        answers(r, update_outcome(old(coll)@, id@, req.title@, req.content@, now as int).0),
        final(coll)@ == update_outcome(old(coll)@, id@, req.title@, req.content@, now as int).1,
        reports_fields(r, req.title@, req.content@),
{
    if let Err(errors) = req.validate() {
        return Err(validation_error(errors));
    }
    let obj_id = match decode_id(id) {
        Some(oid) => oid,
        None => {
            return Err(ApiError::new(ErrorKind::BadRequest, "invalid id format"));
        },
    };
    match update_memo_db(coll, &obj_id, req, now) {
        Some(memo) => Ok(ApiResponse::new(memo)),
        None => Err(ApiError::new(ErrorKind::NotFound, "memo not found")),
    }
}

/// Removes the memo whose identifier text is `id`.
pub fn delete_memo_handler(coll: &mut Collection<Memo>, id: &str) -> (r: Result<ApiResponse<()>, ApiError>)
    requires
        old(coll).wf(),
    ensures
        final(coll).wf(),
        answers_empty(r, delete_outcome(old(coll)@, id@).0),
        final(coll)@ == delete_outcome(old(coll)@, id@).1,
{
    let obj_id = match decode_id(id) {
        Some(oid) => oid,
        None => {
            return Err(ApiError::new(ErrorKind::BadRequest, "invalid id format"));
        },
    };
    if delete_memo_db(coll, &obj_id) {
        Ok(ApiResponse::new(()))
    } else {
        Err(ApiError::new(ErrorKind::NotFound, "memo not found"))
    }
}

/// Relies on chrono's `Utc::now` and `DateTime::timestamp_millis`: the
/// current time in milliseconds since the epoch. Nothing is promised of it.
#[verifier::external_body]
fn now_millis() -> (r: i64) {
    chrono::Utc::now().timestamp_millis()
}

/// Creates a memo stamped with the current time under a freshly drawn
/// identifier. Whatever the clock and the identifier source gave, the result
/// is the outcome of `create_memo_handler` for some time and identifier.
pub fn create_memo(coll: &mut Collection<Memo>, req: CreateMemoRequest) -> (r: Result<ApiResponse<Memo>, ApiError>)
    requires
        old(coll).wf(),
    ensures
        final(coll).wf(),
        exists|now: int, id: Seq<u8>|
            answers(r, #[trigger] create_outcome(old(coll)@, req.title@, req.content@, now, id).0)
                && final(coll)@ == create_outcome(old(coll)@, req.title@, req.content@, now, id).1,
        reports_fields(r, req.title@, req.content@),
{
    let now = now_millis();
    let id = fresh_object_id();
    let ghost (t, c) = (req.title@, req.content@);
    let r = create_memo_handler(coll, req, now, id);
    assert(answers(r, create_outcome(old(coll)@, t, c, now as int, id@).0));
    r
}

/// Updates a memo, stamping it with the current time. Whatever the clock
/// gave, the result is the outcome of `update_memo_handler` for some time.
pub fn update_memo(coll: &mut Collection<Memo>, id: &str, req: UpdateMemoRequest) -> (r: Result<
    ApiResponse<Memo>,
    ApiError,
>)
    requires
        old(coll).wf(),
    ensures
        final(coll).wf(),
        exists|now: int|
            answers(r, #[trigger] update_outcome(old(coll)@, id@, req.title@, req.content@, now).0)
                && final(coll)@ == update_outcome(old(coll)@, id@, req.title@, req.content@, now).1,
        reports_fields(r, req.title@, req.content@),
{
    let now = now_millis();
    let ghost (t, c) = (req.title@, req.content@);
    let r = update_memo_handler(coll, id, req, now);
    assert(answers(r, update_outcome(old(coll)@, id@, t, c, now as int).0));
    r
}

} // verus!
