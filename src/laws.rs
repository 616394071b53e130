//! Properties that relate the handlers' outcomes to one another.

use crate::codec::{hex_text, id_of_text, is_id_text, lemma_id_text_round_trip, ID_LEN};
use crate::error::ErrorKind;
use crate::handlers::{create_outcome, delete_outcome, get_outcome, update_outcome};
use crate::model::MemoView;
use crate::validation::{payload_ok, violated_fields, CONTENT_MAX, TITLE_MAX};
use vstd::prelude::*;

verus! {

/// Creating a valid memo under an unused identifier succeeds, and the record
/// has the given title and content, an identifier, and equal timestamps.
pub proof fn law_create_valid_succeeds(
    m: Map<Seq<u8>, MemoView>,
    title: Seq<char>,
    content: Seq<char>,
    now: int,
    id: Seq<u8>,
)
    requires
        1 <= title.len() <= TITLE_MAX,
        content.len() <= CONTENT_MAX,
        !m.contains_key(id),
    ensures
        create_outcome(m, title, content, now, id).0 is Ok,
        create_outcome(m, title, content, now, id).0.unwrap().title == title,
        create_outcome(m, title, content, now, id).0.unwrap().content == content,
        create_outcome(m, title, content, now, id).0.unwrap().id == Some(id),
        create_outcome(m, title, content, now, id).0.unwrap().created_at == create_outcome(
            m,
            title,
            content,
            now,
            id,
        ).0.unwrap().updated_at,
{
}

/// A title that is empty or longer than 140 characters makes creation a
/// validation error naming `title`; content longer than 1400 characters makes
/// it one naming `content`; when both break, both are named.
pub proof fn law_invalid_fields_named(
    m: Map<Seq<u8>, MemoView>,
    title: Seq<char>,
    content: Seq<char>,
    now: int,
    id: Seq<u8>,
)
    ensures
        (title.len() == 0 || title.len() > TITLE_MAX) ==> create_outcome(m, title, content, now, id).0
            == Err::<MemoView, ErrorKind>(ErrorKind::Validation) && violated_fields(
            title,
            content,
            "content"@,
        ).contains("title"@),
        content.len() > CONTENT_MAX ==> create_outcome(m, title, content, now, id).0 == Err::<
            MemoView,
            ErrorKind,
        >(ErrorKind::Validation) && violated_fields(title, content, "content"@).contains("content"@),
        !payload_ok(title, content) ==> create_outcome(m, title, content, now, id).1 == m,
{
    let v = violated_fields(title, content, "content"@);
    if title.len() == 0 || title.len() > TITLE_MAX {
        assert(v[0] == "title"@);
    }
    if content.len() > CONTENT_MAX {
        assert(v[v.len() - 1] == "content"@);
    }
}

/// Getting a memo by the text of the identifier it was created under gives
/// the created record back, whose `updated_at` is not before `created_at`.
pub proof fn law_create_then_get(
    m: Map<Seq<u8>, MemoView>,
    title: Seq<char>,
    content: Seq<char>,
    now: int,
    id: Seq<u8>,
)
    requires
        payload_ok(title, content),
        !m.contains_key(id),
        id.len() == ID_LEN,
    ensures
        create_outcome(m, title, content, now, id).0 is Ok,
        get_outcome(create_outcome(m, title, content, now, id).1, hex_text(id)) == create_outcome(
            m,
            title,
            content,
            now,
            id,
        ).0,
        create_outcome(m, title, content, now, id).0.unwrap().created_at <= create_outcome(
            m,
            title,
            content,
            now,
            id,
        ).0.unwrap().updated_at,
{
    lemma_id_text_round_trip(id);
}

/// Updating an existing memo gives it the new title and content, keeps its
/// identifier and `created_at`, and moves `updated_at` forward to `now`.
pub proof fn law_update_existing(
    m: Map<Seq<u8>, MemoView>,
    id_text: Seq<char>,
    title: Seq<char>,
    content: Seq<char>,
    now: int,
)
    requires
        payload_ok(title, content),
        is_id_text(id_text),
        m.contains_key(id_of_text(id_text)),
        m[id_of_text(id_text)].updated_at <= now,
    ensures
        update_outcome(m, id_text, title, content, now).0 is Ok,
        update_outcome(m, id_text, title, content, now).0.unwrap().title == title,
        update_outcome(m, id_text, title, content, now).0.unwrap().content == content,
        update_outcome(m, id_text, title, content, now).0.unwrap().id == m[id_of_text(id_text)].id,
        update_outcome(m, id_text, title, content, now).0.unwrap().created_at == m[id_of_text(
            id_text,
        )].created_at,
        update_outcome(m, id_text, title, content, now).0.unwrap().updated_at >= m[id_of_text(
            id_text,
        )].updated_at,
        get_outcome(update_outcome(m, id_text, title, content, now).1, id_text) == update_outcome(
            m,
            id_text,
            title,
            content,
            now,
        ).0,
{
}

/// After a delete, getting the same identifier is not found.
pub proof fn law_delete_then_get(m: Map<Seq<u8>, MemoView>, id_text: Seq<char>)
    requires
        is_id_text(id_text),
    ensures
        get_outcome(delete_outcome(m, id_text).1, id_text) == Err::<MemoView, ErrorKind>(
            ErrorKind::NotFound,
        ),
{
}

/// Text that is not an identifier is a bad request, never not found.
pub proof fn law_malformed_id_bad_request(m: Map<Seq<u8>, MemoView>, id_text: Seq<char>)
    requires
        !is_id_text(id_text),
    ensures
        get_outcome(m, id_text) == Err::<MemoView, ErrorKind>(ErrorKind::BadRequest),
        get_outcome(m, id_text) != Err::<MemoView, ErrorKind>(ErrorKind::NotFound),
{
}

/// A well-formed identifier that names no record is not found.
pub proof fn law_absent_id_not_found(m: Map<Seq<u8>, MemoView>, id_text: Seq<char>)
    requires
        is_id_text(id_text),
        !m.contains_key(id_of_text(id_text)),
    ensures
        get_outcome(m, id_text) == Err::<MemoView, ErrorKind>(ErrorKind::NotFound),
{
}

} // verus!
