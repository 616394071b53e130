//! Per-field length rules for inbound payloads, with a report of every field
//! that breaks its rule.

use vstd::prelude::*;
use vstd::string::*;

verus! {

/// Largest number of characters in a title.
pub const TITLE_MAX: u64 = 140;

/// Largest number of characters in a body text.
pub const CONTENT_MAX: u64 = 1400;

/// One violated field: its name and a message for people.
#[derive(Clone, Debug)]
pub struct FieldError {
    pub field: String,
    pub message: String,
}

/// A title holds between 1 and 140 characters.
pub open spec fn title_ok(title: Seq<char>) -> bool {
    1 <= title.len() <= TITLE_MAX
}

/// A body text holds at most 1400 characters.
pub open spec fn content_ok(content: Seq<char>) -> bool {
    content.len() <= CONTENT_MAX
}

/// Whether a payload passes both field rules.
pub open spec fn payload_ok(title: Seq<char>, content: Seq<char>) -> bool {
    title_ok(title) && content_ok(content)
}

/// The names of the fields that break their rule, title first.
pub open spec fn violated_fields(title: Seq<char>, content: Seq<char>, body_name: Seq<char>) -> Seq<
    Seq<char>,
> {
    (if title_ok(title) {
        Seq::empty()
    } else {
        seq!["title"@]
    }) + (if content_ok(content) {
        Seq::empty()
    } else {
        seq![body_name]
    })
}

/// The field names of a report, in order.
pub open spec fn field_names(errs: Seq<FieldError>) -> Seq<Seq<char>> {
    errs.map_values(|e: FieldError| e.field@)
}

/// Relies on validator's `ValidateLength::validate_length` for `str`, which
/// counts the characters and checks them against the inclusive bounds.
#[verifier::external_body]
fn length_within(s: &str, min: u64, max: u64) -> (r: bool)
    ensures
        r == (min <= s@.len() && s@.len() <= max),
{
    validator::ValidateLength::<u64>::validate_length(s, Some(min), Some(max), None)
}

/// Checks a title and a body text, reporting every field that breaks its rule;
/// the body field is reported under `body_name`.
pub fn validate_fields(title: &str, content: &str, body_name: &str) -> (r: Result<(), Vec<FieldError>>)
    ensures
        r.is_ok() <==> payload_ok(title@, content@),
        r.is_err() ==> field_names(r.unwrap_err()@) == violated_fields(title@, content@, body_name@),
{
    let mut errs: Vec<FieldError> = Vec::new();
    if !length_within(title, 1, TITLE_MAX) {
        errs.push(
            FieldError {
                field: String::from_str("title"),
                message: String::from_str("must hold between 1 and 140 characters"),
            },
        );
    }
    if !length_within(content, 0, CONTENT_MAX) {
        errs.push(
            FieldError {
                field: String::from_str(body_name),
                message: String::from_str("must hold at most 1400 characters"),
            },
        );
    }
    proof {
        reveal_strlit("title");
        assert(field_names(errs@) =~= violated_fields(title@, content@, body_name@));
    }
    if errs.len() == 0 {
        Ok(())
    } else {
        Err(errs)
    }
}

/// The payload that creates a memo.
#[derive(Clone, Debug)]
pub struct CreateMemoRequest {
    pub title: String,
    pub content: String,
}

/// The payload that replaces a memo's title and content.
#[derive(Clone, Debug)]
pub struct UpdateMemoRequest {
    pub title: String,
    pub content: String,
}

/// The memo form's data on the client side, checked by the same rules.
#[derive(Clone, Debug, Default)]
pub struct MemoData {
    pub title: String,
    pub content: String,
}

impl CreateMemoRequest {
    /// Applies the field rules; the error lists every violated field.
    pub fn validate(&self) -> (r: Result<(), Vec<FieldError>>)
        ensures
            r.is_ok() <==> payload_ok(self.title@, self.content@),
            r.is_err() ==> field_names(r.unwrap_err()@) == violated_fields(
                self.title@,
                self.content@,
                "content"@,
            ),
    {
        validate_fields(self.title.as_str(), self.content.as_str(), "content")
    }
}

impl UpdateMemoRequest {
    /// Applies the field rules; the error lists every violated field.
    pub fn validate(&self) -> (r: Result<(), Vec<FieldError>>)
        ensures
            r.is_ok() <==> payload_ok(self.title@, self.content@),
            r.is_err() ==> field_names(r.unwrap_err()@) == violated_fields(
                self.title@,
                self.content@,
                "content"@,
            ),
    {
        validate_fields(self.title.as_str(), self.content.as_str(), "content")
    }
}

impl MemoData {
    /// Applies the field rules; the error lists every violated field.
    pub fn validate(&self) -> (r: Result<(), Vec<FieldError>>)
        ensures
            r.is_ok() <==> payload_ok(self.title@, self.content@),
            r.is_err() ==> field_names(r.unwrap_err()@) == violated_fields(
                self.title@,
                self.content@,
                "content"@,
            ),
    {
        validate_fields(self.title.as_str(), self.content.as_str(), "content")
    }
}

} // verus!
