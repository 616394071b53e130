use memo_api::routes::{match_route, routes, Endpoint, Method};

fn reach(method: Method, path: &str) -> Option<(Endpoint, String)> {
    match_route(method, path).map(|m| (m.endpoint, m.id))
}

#[test]
fn route_table_lists_the_rest_surface() {
    let table: Vec<(Method, String, Endpoint)> =
        routes().into_iter().map(|r| (r.method, r.path, r.endpoint)).collect();
    assert_eq!(table.len(), 7);
    assert_eq!(table[2], (Method::Post, "/memos".to_string(), Endpoint::CreateMemo));
    assert_eq!(table[6], (Method::Delete, "/memos/<id>".to_string(), Endpoint::DeleteMemo));
}

#[test]
fn collection_paths_reach_create_and_list() {
    assert_eq!(reach(Method::Post, "/memos"), Some((Endpoint::CreateMemo, String::new())));
    assert_eq!(reach(Method::Get, "/memos"), Some((Endpoint::ListMemos, String::new())));
    assert_eq!(reach(Method::Delete, "/memos"), None);
}

#[test]
fn member_paths_carry_the_id_segment() {
    let id = "630a1f470d1d1ed3e972cfdd";
    let path = format!("/memos/{}", id);
    assert_eq!(reach(Method::Get, &path), Some((Endpoint::GetMemo, id.to_string())));
    assert_eq!(reach(Method::Put, &path), Some((Endpoint::UpdateMemo, id.to_string())));
    assert_eq!(reach(Method::Delete, &path), Some((Endpoint::DeleteMemo, id.to_string())));
    assert_eq!(reach(Method::Post, &path), None);
    assert_eq!(reach(Method::Get, "/memos/invalid-id"), Some((Endpoint::GetMemo, "invalid-id".to_string())));
}

#[test]
fn other_paths_reach_nothing() {
    assert_eq!(reach(Method::Get, "/memos/"), None);
    assert_eq!(reach(Method::Get, "/memos/a/b"), None);
    assert_eq!(reach(Method::Get, "/memosx"), None);
    assert_eq!(reach(Method::Get, "/other"), None);
    assert_eq!(reach(Method::Get, "/"), Some((Endpoint::Root, String::new())));
    assert_eq!(reach(Method::Get, "/health"), Some((Endpoint::Health, String::new())));
    assert_eq!(reach(Method::Post, "/health"), None);
}
