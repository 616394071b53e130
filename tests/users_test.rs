use memo_api::codec::DocId;
use memo_api::store::Collection;
use memo_api::users::{create_user, delete_user, get_user, get_users, CreateUserDto, User, UserDto};

fn dto(suffix: &str) -> CreateUserDto {
    CreateUserDto {
        google_id: format!("google_{}", suffix),
        email: format!("test_{}@example.com", suffix),
        username: format!("사용자_{}", suffix),
    }
}

fn uid(n: u8) -> DocId {
    DocId { bytes: [0x65, 0, 0, 0, 0, 0, 0, 0, 0, 0, 0, n] }
}

#[test]
fn test_create_user() {
    let mut coll: Collection<User> = Collection::new();
    let created = create_user(&mut coll, dto("a1"), 0, uid(1)).unwrap().data;
    assert!(!created.id.is_empty());
    assert_eq!(created.id, "650000000000000000000001");
    assert_eq!(created.google_id, "google_a1");
    assert_eq!(created.email, "test_a1@example.com");
    assert_eq!(created.username, "사용자_a1");
    assert_eq!(created.created_at, "1970-01-01 0:00:00.0 +00:00:00");
}

#[test]
fn test_get_user() {
    let mut coll: Collection<User> = Collection::new();
    let user_id = create_user(&mut coll, dto("b2"), 1_000, uid(2)).unwrap().data.id;
    let user = get_user(&coll, &user_id).unwrap().data;
    assert_eq!(user.id, user_id);
    assert_eq!(user.google_id, "google_b2");
    assert_eq!(user.email, "test_b2@example.com");
    delete_user(&mut coll, &user_id).unwrap();
    assert_eq!(get_user(&coll, "invalid_id").unwrap_err().status, 400);
    assert_eq!(get_user(&coll, &user_id).unwrap_err().status, 404);
}

#[test]
fn test_delete_user() {
    let mut coll: Collection<User> = Collection::new();
    let user_id = create_user(&mut coll, dto("c3"), 0, uid(3)).unwrap().data.id;
    assert!(delete_user(&mut coll, &user_id).unwrap().success);
    assert_eq!(get_user(&coll, &user_id).unwrap_err().status, 404);
    assert!(delete_user(&mut coll, &user_id).is_ok());
    assert_eq!(delete_user(&mut coll, "nope").unwrap_err().status, 400);
}

#[test]
fn duplicate_google_id_is_bad_request() {
    let mut coll: Collection<User> = Collection::new();
    create_user(&mut coll, dto("d4"), 0, uid(4)).unwrap();
    let e = create_user(&mut coll, dto("d4"), 0, uid(5)).unwrap_err();
    assert_eq!(e.status, 400);
    assert_eq!(e.error.code, "BAD_REQUEST");
    assert_eq!(e.error.message, "user already exists: test_d4@example.com");
    assert_eq!(get_users(&coll).unwrap().data.len(), 1);
}

#[test]
fn user_without_id_shows_empty_id() {
    let u = User::from_create(dto("e5"), 86_400_000);
    let shown = UserDto::from_user(&u);
    assert_eq!(shown.id, "");
    assert_eq!(shown.created_at, shown.updated_at);
    assert_ne!(shown.created_at, "86400000");
}
