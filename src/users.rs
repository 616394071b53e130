//! The user resource: accounts keyed by a generated identifier, unique by
//! their Google account id.

use crate::codec::{decode_id, encode_id, hex_text, id_of_text, is_id_text, DocId};
use crate::error::{ApiError, ErrorKind};
use crate::response::ApiResponse;
use crate::store::{lists_all, views, Collection, Document};
use vstd::prelude::*;
use vstd::string::*;

verus! {

/// A user as the store holds it; timestamps are milliseconds since the epoch.
#[derive(Clone, Debug)]
pub struct User {
    pub id: Option<DocId>,
    pub google_id: String,
    pub email: String,
    pub username: String,
    pub created_at: i64,
    pub updated_at: i64,
}

/// What a user holds, as mathematical values.
pub struct UserView {
    pub id: Option<Seq<u8>>,
    pub google_id: Seq<char>,
    pub email: Seq<char>,
    pub username: Seq<char>,
    pub created_at: int,
    pub updated_at: int,
}

impl View for User {
    type V = UserView;

    open spec fn view(&self) -> UserView {
        UserView {
            id: match self.id {
                Some(i) => Some(i@),
                None => None,
            },
            google_id: self.google_id@,
            email: self.email@,
            username: self.username@,
            created_at: self.created_at as int,
            updated_at: self.updated_at as int,
        }
    }
}

impl Document for User {
    open spec fn key(v: UserView) -> Option<Seq<u8>> {
        v.id
    }

    open spec fn keyed(v: UserView, id: Seq<u8>) -> UserView {
        UserView { id: Some(id), ..v }
    }

    proof fn lemma_keyed(v: UserView, id: Seq<u8>) {
    }

    fn doc_id(&self) -> (r: Option<DocId>) {
        self.id
    }

    fn with_id(self, id: DocId) -> (r: User) {
        User { id: Some(id), ..self }
    }

    fn duplicate(&self) -> (r: User) {
        User {
            id: self.id,
            google_id: self.google_id.clone(),
            email: self.email.clone(),
            username: self.username.clone(),
            created_at: self.created_at,
            updated_at: self.updated_at,
        }
    }
}

/// The payload that registers a user.
#[derive(Clone, Debug)]
pub struct CreateUserDto {
    pub google_id: String,
    pub email: String,
    pub username: String,
}

/// A user as clients see it: the identifier as hexadecimal text (empty when
/// absent) and the timestamps as text.
#[derive(Clone, Debug)]
pub struct UserDto {
    pub id: String,
    pub google_id: String,
    pub email: String,
    pub username: String,
    pub created_at: String,
    pub updated_at: String,
}

/// What a user shows as, as mathematical values.
pub struct UserDtoView {
    pub id: Seq<char>,
    pub google_id: Seq<char>,
    pub email: Seq<char>,
    pub username: Seq<char>,
    pub created_at: Seq<char>,
    pub updated_at: Seq<char>,
}

impl View for UserDto {
    type V = UserDtoView;

    open spec fn view(&self) -> UserDtoView {
        UserDtoView {
            id: self.id@,
            google_id: self.google_id@,
            email: self.email@,
            username: self.username@,
            created_at: self.created_at@,
            updated_at: self.updated_at@,
        }
    }
}

/// The text that bson's `DateTime` displays for a number of milliseconds
/// since the epoch.
pub uninterp spec fn datetime_text(ms: int) -> Seq<char>;

/// Relies on the `Display` of bson's `DateTime` (a UTC date and time, or the
/// bare number when out of range): the text depends on the milliseconds alone.
#[verifier::external_body]
fn format_datetime(ms: i64) -> (r: String)
    ensures
        r@ == datetime_text(ms as int),
{
    bson::DateTime::from_millis(ms).to_string()
}

/// How a stored user shows to clients.
pub open spec fn dto_of(u: UserView) -> UserDtoView {
    UserDtoView {
        id: match u.id {
            Some(b) => hex_text(b),
            None => Seq::empty(),
        },
        google_id: u.google_id,
        email: u.email,
        username: u.username,
        created_at: datetime_text(u.created_at),
        updated_at: datetime_text(u.updated_at),
    }
}

/// The user that a registration creates, both timestamps `now`.
pub open spec fn registered(dto: CreateUserDto, now: int) -> UserView {
    UserView {
        id: None,
        google_id: dto.google_id@,
        email: dto.email@,
        username: dto.username@,
        created_at: now,
        updated_at: now,
    }
}

/// Whether some stored user has the Google account id `gid`.
pub open spec fn google_id_taken(m: Map<Seq<u8>, UserView>, gid: Seq<char>) -> bool {
    exists|k: Seq<u8>| #[trigger] m.contains_key(k) && m[k].google_id == gid
}

impl User {
    /// A new user from a registration, both timestamps `now`.
    pub fn from_create(dto: CreateUserDto, now: i64) -> (r: User)
        ensures
            r@ == registered(dto, now as int),
    {
        User {
            id: None,
            google_id: dto.google_id,
            email: dto.email,
            username: dto.username,
            created_at: now,
            updated_at: now,
        }
    }
}

impl UserDto {
    /// How a user shows to clients.
    pub fn from_user(user: &User) -> (r: UserDto)
        ensures
            r@ == dto_of(user@),
    {
        let id = match &user.id {
            Some(i) => encode_id(i),
            None => String::new(),
        };
        UserDto {
            id,
            google_id: user.google_id.clone(),
            email: user.email.clone(),
            username: user.username.clone(),
            created_at: format_datetime(user.created_at),
            updated_at: format_datetime(user.updated_at),
        }
    }
}

impl Collection<User> {
    /// A stored user whose Google account id is `gid`, if there is one.
    pub fn find_by_google_id(&self, gid: &str) -> (r: Option<User>)
        requires
            self.wf(),
        ensures
            r.is_some() == google_id_taken(self@, gid@),
            r.is_some() ==> r.unwrap()@.google_id == gid@ && r.unwrap()@.id.is_some()
                && self@.contains_key(r.unwrap()@.id.unwrap()) && self@[r.unwrap()@.id.unwrap()] == r.unwrap()@,
    {
        let all = self.find_all();
        let mut i: usize = 0;
        while i < all.len()
            invariant
                lists_all::<User>(views(all@), self@),
                0 <= i <= all@.len(),
                forall|j: int| 0 <= j < i ==> (#[trigger] all@[j])@.google_id != gid@,
            decreases all@.len() - i,
        {
            if all[i].google_id == String::from_str(gid) {
                assert(views(all@)[i as int] == all@[i as int]@);
                return Some(all[i].duplicate());
            }
            i = i + 1;
        }
        assert(!google_id_taken(self@, gid@)) by {
            assert forall|k: Seq<u8>| #[trigger] self@.contains_key(k) implies self@[k].google_id != gid@ by {
                let j = choose|j: int| 0 <= j < views(all@).len() && User::key(#[trigger] views(all@)[j]) == Some(k);
                assert(views(all@)[j] == all@[j]@);
            }
        }
        None
    }
}

/// The stored user under `id`, or the not-found error.
pub fn try_get_user(coll: &Collection<User>, id: &DocId) -> (r: Result<User, ApiError>)
    requires
        coll.wf(),
    ensures
        coll@.contains_key(id@) ==> r.is_ok() && r.unwrap()@ == coll@[id@],
        !coll@.contains_key(id@) ==> r.is_err() && r.unwrap_err().is_kind(ErrorKind::NotFound),
{
    match coll.find_one(id) {
        Some(u) => Ok(u),
        None => Err(ApiError::new(ErrorKind::NotFound, "user does not exist")),
    }
}

/// Every user as clients see them, each once.
pub fn get_users(coll: &Collection<User>) -> (r: Result<ApiResponse<Vec<UserDto>>, ApiError>)
    requires
        coll.wf(),
    ensures
        r.is_ok(),
        r.unwrap().success,
        exists|recs: Seq<UserView>|
            #[trigger] lists_all::<User>(recs, coll@) && recs.len() == r.unwrap().data@.len() && forall|i: int|
                0 <= i < recs.len() ==> (#[trigger] r.unwrap().data@[i])@ == dto_of(recs[i]),
{
    let users = coll.find_all();
    let mut dtos: Vec<UserDto> = Vec::new();
    let mut i: usize = 0;
    while i < users.len()
        invariant
            0 <= i <= users@.len(),
            dtos@.len() == i,
            forall|j: int| 0 <= j < i ==> (#[trigger] dtos@[j])@ == dto_of(users@[j]@),
        decreases users@.len() - i,
    {
        dtos.push(UserDto::from_user(&users[i]));
        i = i + 1;
    }
    let ghost vs = views(users@);
    assert(lists_all::<User>(vs, coll@));
    let r = Ok(ApiResponse::new(dtos));
    assert(forall|i: int| 0 <= i < vs.len() ==> (#[trigger] r.unwrap().data@[i])@ == dto_of(vs[i]));
    r
}

/// What registering a user yields on a collection, and the collection after
/// it: a taken Google account id is a bad request, a taken identifier a store
/// failure.
pub open spec fn create_user_outcome(
    m: Map<Seq<u8>, UserView>,
    dto: CreateUserDto,
    now: int,
    id: Seq<u8>,
) -> (Result<UserDtoView, ErrorKind>, Map<Seq<u8>, UserView>) {
    if google_id_taken(m, dto.google_id@) {
        (Err(ErrorKind::BadRequest), m)
    } else if m.contains_key(id) {
        (Err(ErrorKind::Internal), m)
    } else {
        let u = User::keyed(registered(dto, now), id);
        (Ok(dto_of(u)), m.insert(id, u))
    }
}

/// Whether a response carries the outcome `o`.
pub open spec fn answers_user(r: Result<ApiResponse<UserDto>, ApiError>, o: Result<UserDtoView, ErrorKind>) -> bool {
    match (r, o) {
        (Ok(resp), Ok(v)) => resp.success && resp.data@ == v,
        (Err(e), Err(k)) => e.is_kind(k),
        _ => false,
    }
}

/// Registers a user under `new_id`, stamped `now`, unless the Google account
/// id is already registered.
pub fn create_user(coll: &mut Collection<User>, dto: CreateUserDto, now: i64, new_id: DocId) -> (r: Result<
    ApiResponse<UserDto>,
    ApiError,
>)
    requires
        old(coll).wf(),
    ensures
        final(coll).wf(),
        answers_user(r, create_user_outcome(old(coll)@, dto, now as int, new_id@).0),
        final(coll)@ == create_user_outcome(old(coll)@, dto, now as int, new_id@).1,
{
    if let Some(_) = coll.find_by_google_id(dto.google_id.as_str()) {
        let mut message = String::from_str("user already exists: ");
        message.append(dto.email.as_str());
        return Err(ApiError::new(ErrorKind::BadRequest, message.as_str()));
    }
    let new_user = User::from_create(dto, now);
    let user_id = match coll.insert_one(new_user, new_id) {
        Ok(id) => id,
        Err(_) => {
            return Err(ApiError::new(ErrorKind::Internal, "failed to store the user"));
        },
    };
    match try_get_user(coll, &user_id) {
        Ok(created) => Ok(ApiResponse::new(UserDto::from_user(&created))),
        Err(e) => Err(e),
    }
}

/// What getting a user by identifier text yields.
pub open spec fn get_user_outcome(m: Map<Seq<u8>, UserView>, id_text: Seq<char>) -> Result<
    UserDtoView,
    ErrorKind,
> {
    if !is_id_text(id_text) {
        Err(ErrorKind::BadRequest)
    } else if !m.contains_key(id_of_text(id_text)) {
        Err(ErrorKind::NotFound)
    } else {
        Ok(dto_of(m[id_of_text(id_text)]))
    }
}

/// The user whose identifier text is `user_id`.
pub fn get_user(coll: &Collection<User>, user_id: &str) -> (r: Result<ApiResponse<UserDto>, ApiError>)
    requires
        coll.wf(),
    ensures
        answers_user(r, get_user_outcome(coll@, user_id@)),
{
    let id = match decode_id(user_id) {
        Some(id) => id,
        None => {
            return Err(ApiError::new(ErrorKind::BadRequest, "invalid id format"));
        },
    };
    match try_get_user(coll, &id) {
        Ok(user) => Ok(ApiResponse::new(UserDto::from_user(&user))),
        Err(e) => Err(e),
    }
}

/// Removes the user whose identifier text is `user_id`; removing an absent
/// user succeeds too.
pub fn delete_user(coll: &mut Collection<User>, user_id: &str) -> (r: Result<ApiResponse<()>, ApiError>)
    requires
        old(coll).wf(),
    ensures
        final(coll).wf(),
        is_id_text(user_id@) ==> r.is_ok() && r.unwrap().success && final(coll)@ == old(coll)@.remove(
            id_of_text(user_id@),
        ),
        !is_id_text(user_id@) ==> r.is_err() && r.unwrap_err().is_kind(ErrorKind::BadRequest)
            && final(coll)@ == old(coll)@,
{
    let id = match decode_id(user_id) {
        Some(id) => id,
        None => {
            return Err(ApiError::new(ErrorKind::BadRequest, "invalid id format"));
        },
    };
    let _ = coll.delete_one(&id);
    Ok(ApiResponse::new(()))
}

} // verus!
