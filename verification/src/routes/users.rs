//! User endpoint replies: demonstration CRUD stubs around the gateway.

use vstd::prelude::*;

use crate::clock::utc_now_rfc3339;

verus! {

/// A user record; the identifier is the 128-bit value of a version-4 UUID.
#[derive(Debug)]
pub struct User {
    pub id: u128,
    pub username: String,
    pub email: String,
    pub created_at: String,
    pub active: bool,
}

/// The payload of a user creation request.
#[derive(Debug)]
pub struct CreateUserRequest {
    pub username: String,
    pub email: String,
}

/// The reply of a successful user creation.
#[derive(Debug)]
pub struct CreateUserResponse {
    pub user: User,
    pub message: String,
}

/// One page of the user listing.
#[derive(Debug)]
pub struct UserListResponse {
    pub users: Vec<User>,
    pub total: usize,
    pub page: usize,
    pub per_page: usize,
}

/// Why a user request was rejected.
#[derive(Clone, Copy, Debug, PartialEq, Eq, Structural)]
pub enum UserError {
    /// The payload misses a required value; answered as a bad request.
    InvalidRequest,
}

impl UserError {
    /// The HTTP status a rejection is answered with.
    pub fn status_code(&self) -> (r: u16)
        ensures
            r == 400,
    {
        400
    }
}

/// Relies on uuid's `Uuid::new_v4` and `Uuid::as_u128`: a fresh random
/// version-4 identifier, as its 128-bit value.
#[verifier::external_body]
fn new_user_id() -> (r: u128) {
    uuid::Uuid::new_v4().as_u128()
}

/// The demonstration user listing: one page holding the two sample users.
pub fn list_users() -> (r: UserListResponse)
    ensures
        r.users@.len() == 2,
        r.total == r.users@.len(),
        r.page == 1,
        r.per_page == 10,
        r.users@[0].username@ == "admin"@,
        r.users@[0].email@ == "admin@gateway.internal"@,
        r.users@[0].active,
        r.users@[1].username@ == "developer"@,
        r.users@[1].email@ == "dev@gateway.internal"@,
        r.users@[1].active,
{
    let mut users: Vec<User> = Vec::new();
    users.push(
        User {
            id: new_user_id(),
            username: "admin".to_owned(),
            email: "admin@gateway.internal".to_owned(),
            created_at: utc_now_rfc3339(),
            active: true,
        },
    );
    users.push(
        User {
            id: new_user_id(),
            username: "developer".to_owned(),
            email: "dev@gateway.internal".to_owned(),
            created_at: utc_now_rfc3339(),
            active: true,
        },
    );
    let total = users.len();
    UserListResponse { users, total, page: 1, per_page: 10 }
}

/// Creates one user from the payload: rejected exactly when the username or
/// the email is empty, otherwise answered with the new record carrying the
/// payload's values.
pub fn create_user(payload: CreateUserRequest) -> (r: Result<CreateUserResponse, UserError>)
    ensures
        r is Err <==> (payload.username@.len() == 0 || payload.email@.len() == 0),
        r matches Err(e) ==> e == UserError::InvalidRequest,
        r matches Ok(resp) ==> {
            &&& resp.user.username == payload.username
            &&& resp.user.email == payload.email
            &&& resp.user.active
            &&& resp.message@ == "User created successfully"@
        },
{
    if payload.username.as_str().is_empty() || payload.email.as_str().is_empty() {
        return Err(UserError::InvalidRequest);
    }
    let new_user = User {
        id: new_user_id(),
        username: payload.username,
        email: payload.email,
        created_at: utc_now_rfc3339(),
        active: true,
    };
    Ok(CreateUserResponse { user: new_user, message: "User created successfully".to_owned() })
}

} // verus!
