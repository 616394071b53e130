use memo_api::validation::{validate_fields, CreateMemoRequest, MemoData, UpdateMemoRequest};

fn names(r: Result<(), Vec<memo_api::validation::FieldError>>) -> Vec<String> {
    r.unwrap_err().into_iter().map(|e| e.field).collect()
}

#[test]
fn valid_payload_passes() {
    let req = CreateMemoRequest { title: "T".to_string(), content: "C".to_string() };
    assert!(req.validate().is_ok());
    let req = CreateMemoRequest { title: "x".repeat(140), content: "y".repeat(1400) };
    assert!(req.validate().is_ok());
    let req = CreateMemoRequest { title: "x".to_string(), content: String::new() };
    assert!(req.validate().is_ok());
}

#[test]
fn empty_title_names_title() {
    let req = CreateMemoRequest { title: String::new(), content: "C".to_string() };
    assert_eq!(names(req.validate()), vec!["title".to_string()]);
}

#[test]
fn long_title_names_title() {
    let req = UpdateMemoRequest { title: "x".repeat(141), content: String::new() };
    assert_eq!(names(req.validate()), vec!["title".to_string()]);
}

#[test]
fn long_content_names_content() {
    let req = UpdateMemoRequest { title: "T".to_string(), content: "y".repeat(1401) };
    assert_eq!(names(req.validate()), vec!["content".to_string()]);
}

#[test]
fn both_violations_are_reported() {
    let data = MemoData { title: String::new(), content: "y".repeat(1401) };
    assert_eq!(names(data.validate()), vec!["title".to_string(), "content".to_string()]);
}

#[test]
fn lengths_count_characters_not_bytes() {
    let req = CreateMemoRequest { title: "가".repeat(140), content: "나".repeat(1400) };
    assert!(req.validate().is_ok());
    let req = CreateMemoRequest { title: "가".repeat(141), content: String::new() };
    assert!(req.validate().is_err());
}

#[test]
fn body_field_name_is_reported_as_given() {
    let r = validate_fields("T", &"m".repeat(1401), "message");
    assert_eq!(names(r), vec!["message".to_string()]);
}
