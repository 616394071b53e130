use memo_api::codec::{encode_id, DocId};
use memo_api::error::{ApiError, ErrorResponse};
use memo_api::handlers::{
    create_memo, create_memo_handler, delete_memo_handler, get_memo_handler, list_memos_handler,
    update_memo, update_memo_handler,
};
use memo_api::store::Collection;
use memo_api::validation::{CreateMemoRequest, UpdateMemoRequest};

fn id(n: u8) -> DocId {
    DocId { bytes: [0x63, 0x0a, 0x1f, 0x47, 0, 0, 0, 0, 0, 0, 0, n] }
}

fn create_req(title: &str, content: &str) -> CreateMemoRequest {
    CreateMemoRequest { title: title.to_string(), content: content.to_string() }
}

fn update_req(title: &str, content: &str) -> UpdateMemoRequest {
    UpdateMemoRequest { title: title.to_string(), content: content.to_string() }
}

fn assert_kind(e: &ApiError, code: &str, status: u16) {
    assert!(!e.success);
    assert_eq!(e.error.code, code);
    assert_eq!(e.status, status);
}

#[test]
fn create_returns_stored_record() {
    let mut coll = Collection::new();
    let resp = create_memo_handler(&mut coll, create_req("T", "C"), 1_000, id(1)).unwrap();
    assert!(resp.success);
    assert_eq!(resp.data.title, "T");
    assert_eq!(resp.data.content, "C");
    assert_eq!(resp.data.created_at, 1_000);
    assert_eq!(resp.data.updated_at, 1_000);
    assert_eq!(resp.data.id.unwrap().bytes, id(1).bytes);
}

#[test]
fn create_with_invalid_payload_is_validation_error() {
    let mut coll = Collection::new();
    let e = create_memo_handler(&mut coll, create_req("", "C"), 1, id(1)).unwrap_err();
    assert_kind(&e, "VALIDATION_ERROR", 400);
    let details = e.error.details.unwrap();
    assert_eq!(details.len(), 1);
    assert_eq!(details[0].field, "title");
    let listed = list_memos_handler(&coll).unwrap();
    assert!(listed.data.is_empty());
}

#[test]
fn create_with_both_fields_invalid_names_both() {
    let mut coll = Collection::new();
    let long_title = "t".repeat(141);
    let long_content = "c".repeat(1401);
    let e = create_memo_handler(&mut coll, create_req(&long_title, &long_content), 1, id(1)).unwrap_err();
    assert_kind(&e, "VALIDATION_ERROR", 400);
    let fields: Vec<String> = e.error.details.unwrap().into_iter().map(|f| f.field).collect();
    assert_eq!(fields, vec!["title".to_string(), "content".to_string()]);
}

#[test]
fn create_under_taken_id_is_internal_error() {
    let mut coll = Collection::new();
    create_memo_handler(&mut coll, create_req("A", ""), 1, id(1)).unwrap();
    let e = create_memo_handler(&mut coll, create_req("B", ""), 2, id(1)).unwrap_err();
    assert_kind(&e, "INTERNAL_SERVER_ERROR", 500);
    assert!(e.error.details.is_none());
    assert_eq!(list_memos_handler(&coll).unwrap().data.len(), 1);
}

#[test]
fn get_after_create_round_trips() {
    let mut coll = Collection::new();
    let created = create_memo_handler(&mut coll, create_req("T", "C"), 5, id(2)).unwrap().data;
    let text = encode_id(&created.id.unwrap());
    let got = get_memo_handler(&coll, &text).unwrap().data;
    assert_eq!(got.title, created.title);
    assert_eq!(got.content, created.content);
    assert_eq!(got.created_at, created.created_at);
    assert_eq!(got.updated_at, created.updated_at);
    assert!(got.updated_at >= got.created_at);
}

#[test]
fn update_replaces_fields_and_keeps_created_at() {
    let mut coll = Collection::new();
    create_memo_handler(&mut coll, create_req("T", "C"), 10, id(3)).unwrap();
    let text = encode_id(&id(3));
    let updated = update_memo_handler(&mut coll, &text, update_req("T2", "C2"), 20).unwrap().data;
    assert_eq!(updated.title, "T2");
    assert_eq!(updated.content, "C2");
    assert_eq!(updated.created_at, 10);
    assert_eq!(updated.updated_at, 20);
    let got = get_memo_handler(&coll, &text).unwrap().data;
    assert_eq!(got.title, "T2");
    assert_eq!(got.updated_at, 20);
}

#[test]
fn update_errors_follow_validation_then_id_then_store() {
    let mut coll = Collection::new();
    let e = update_memo_handler(&mut coll, "bad", update_req("", ""), 1).unwrap_err();
    assert_kind(&e, "VALIDATION_ERROR", 400);
    let e = update_memo_handler(&mut coll, "bad", update_req("T", ""), 1).unwrap_err();
    assert_kind(&e, "BAD_REQUEST", 400);
    let e = update_memo_handler(&mut coll, "630a1f470d1d1ed3e972cfdd", update_req("T", ""), 1).unwrap_err();
    assert_kind(&e, "NOT_FOUND", 404);
}

#[test]
fn delete_then_get_is_not_found() {
    let mut coll = Collection::new();
    create_memo_handler(&mut coll, create_req("T", "C"), 1, id(4)).unwrap();
    let text = encode_id(&id(4));
    assert!(delete_memo_handler(&mut coll, &text).unwrap().success);
    let e = get_memo_handler(&coll, &text).unwrap_err();
    assert_kind(&e, "NOT_FOUND", 404);
    let e = delete_memo_handler(&mut coll, &text).unwrap_err();
    assert_kind(&e, "NOT_FOUND", 404);
}

#[test]
fn malformed_id_is_bad_request() {
    let coll = Collection::new();
    let e = get_memo_handler(&coll, "not-a-hex-id").unwrap_err();
    assert_kind(&e, "BAD_REQUEST", 400);
    assert!(e.error.details.is_none());
    let mut coll = coll;
    let e = delete_memo_handler(&mut coll, "invalid-id").unwrap_err();
    assert_kind(&e, "BAD_REQUEST", 400);
}

#[test]
fn never_created_id_is_not_found() {
    let coll = Collection::new();
    let e = get_memo_handler(&coll, "630a1f470d1d1ed3e972cfdd").unwrap_err();
    assert_kind(&e, "NOT_FOUND", 404);
}

#[test]
fn list_returns_every_record_once() {
    let mut coll = Collection::new();
    for n in 0..5u8 {
        create_memo_handler(&mut coll, create_req(&format!("m{}", n), ""), n as i64, id(n)).unwrap();
    }
    let text = encode_id(&id(2));
    delete_memo_handler(&mut coll, &text).unwrap();
    let listed = list_memos_handler(&coll).unwrap();
    assert!(listed.success);
    let mut titles: Vec<String> = listed.data.into_iter().map(|m| m.title).collect();
    titles.sort();
    assert_eq!(titles, vec!["m0", "m1", "m3", "m4"]);
}

#[test]
fn scenario_create_get_delete_get() {
    let mut coll = Collection::new();
    let created = create_memo(&mut coll, create_req("T", "C")).unwrap();
    assert!(created.success);
    assert_eq!(created.data.title, "T");
    let text = encode_id(&created.data.id.unwrap());
    assert_eq!(text.len(), 24);
    let got = get_memo_handler(&coll, &text).unwrap();
    assert!(got.success);
    assert_eq!(got.data.title, "T");
    assert!(delete_memo_handler(&mut coll, &text).unwrap().success);
    let e = get_memo_handler(&coll, &text).unwrap_err();
    assert_eq!(e.status, 404);
    assert_eq!(e.error.code, "NOT_FOUND");
}

#[test]
fn update_with_clock_stamps_a_later_time() {
    let mut coll = Collection::new();
    let created = create_memo(&mut coll, create_req("T", "C")).unwrap().data;
    let text = encode_id(&created.id.unwrap());
    let updated = update_memo(&mut coll, &text, update_req("U", "")).unwrap().data;
    assert_eq!(updated.title, "U");
    assert_eq!(updated.created_at, created.created_at);
    assert!(updated.updated_at >= created.updated_at);
    assert!(created.created_at > 1_500_000_000_000);
}

#[test]
fn fresh_ids_differ() {
    let mut coll = Collection::new();
    let a = create_memo(&mut coll, create_req("A", "")).unwrap().data.id.unwrap();
    let b = create_memo(&mut coll, create_req("B", "")).unwrap().data.id.unwrap();
    assert_ne!(a.bytes, b.bytes);
}

#[test]
fn error_response_carries_reason_phrase() {
    let coll = Collection::new();
    let e = get_memo_handler(&coll, "630a1f470d1d1ed3e972cfdd").unwrap_err();
    let body = ErrorResponse::from_api_error(&e);
    assert_eq!(body.error, "Not Found");
    assert_eq!(body.message, e.error.message);
    let e = get_memo_handler(&coll, "x").unwrap_err();
    assert_eq!(ErrorResponse::from_api_error(&e).error, "Bad Request");
}
