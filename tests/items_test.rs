use memo_api::codec::DocId;
use memo_api::items::{create_item, delete_item, get_all_items, get_item_by_id, update_item, ItemData};
use memo_api::store::Collection;

fn data(title: &str, message: &str) -> ItemData {
    ItemData { title: title.to_string(), message: message.to_string() }
}

#[test]
fn test_items_crud() {
    let mut coll = Collection::new();
    let new_id = DocId { bytes: [0x66, 0x1d, 0, 0, 0, 0, 0, 0, 0, 0, 0, 7] };

    let created = create_item(&mut coll, data("테스트 아이템", "테스트 설명입니다"), 1, new_id).unwrap().data;
    assert!(created.id.is_some());
    assert_eq!(created.title, "테스트 아이템");
    assert_eq!(created.message, "테스트 설명입니다".to_string());
    let item_id = created.id.unwrap();
    assert_eq!(item_id, "661d00000000000000000007");

    let items = get_all_items(&coll).unwrap().data;
    assert_eq!(items.len(), 1);

    let item = get_item_by_id(&coll, &item_id).unwrap().data;
    assert_eq!(item.title, "테스트 아이템");

    let updated = update_item(&mut coll, &item_id, data("수정된 아이템", ""), 2).unwrap().data;
    assert_eq!(updated.title, "수정된 아이템");
    assert_eq!(updated.message, "".to_string());

    assert!(delete_item(&mut coll, &item_id).unwrap().success);

    assert_eq!(get_item_by_id(&coll, &item_id).unwrap_err().status, 404);

    let non_existent_id = "630a1f470d1d1ed3e972cfdd";
    assert_eq!(get_item_by_id(&coll, non_existent_id).unwrap_err().status, 404);

    assert_eq!(get_item_by_id(&coll, "/items/invalid-id").unwrap_err().status, 400);
    assert_eq!(get_item_by_id(&coll, "invalid-id").unwrap_err().status, 400);
}

#[test]
fn item_message_too_long_names_message() {
    let mut coll = Collection::new();
    let id = DocId { bytes: [1; 12] };
    let e = create_item(&mut coll, data("T", &"m".repeat(1401)), 1, id).unwrap_err();
    assert_eq!(e.error.code, "VALIDATION_ERROR");
    let fields: Vec<String> = e.error.details.unwrap().into_iter().map(|f| f.field).collect();
    assert_eq!(fields, vec!["message".to_string()]);
}
