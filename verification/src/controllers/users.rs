//! The requests on users. Each handler starts the operation of the service
//! that its request asks for.

use vstd::prelude::*;
use crate::models::user::{
    CreateUser, SignInRequest, SignUpRequest, UpdateUser, UpdateUserView, UserId,
};
use crate::services::errors::{ServiceErrorView, UsersServiceError};
use crate::services::protocol::{result_view, Outcome, OutcomeView, Step};
use crate::services::users_service::{
    create_start, delete_start, get_by_id_start, list_start, sign_in_start,
    sign_up_start, update_start, UsersService,
};
use crate::storage::hashing::hashes;

verus! {

/// Starts the sign-in that the request asks for.
pub fn sign_in(service: &UsersService, credentials: SignInRequest) -> (step: Step)
    ensures
        step@ == sign_in_start(credentials@),
{
    service.sign_in(credentials)
}

/// Starts the registration that the request asks for.
pub fn sign_up(service: &UsersService, user_data: SignUpRequest) -> (step: Step)
    ensures
        step@ == sign_up_start(user_data@),
{
    service.sign_up(user_data)
}

/// Starts the creation that the request asks for. The password is hashed
/// with a random salt.
pub fn create_user(service: &UsersService, payload: CreateUser) -> (step: Step)
    ensures
        exists|hashed: Result<Seq<char>, Seq<char>>|
            hashes(hashed, payload@.password) && step@ == #[trigger] create_start(
                payload@,
                hashed,
            ),
{
    service.create(payload)
}

/// Starts the lookup of the user with the identifier of the path.
pub fn get_user_by_id(service: &UsersService, id: &str) -> (step: Step)
    ensures
        step@ == get_by_id_start(id@),
{
    service.get_by_id(id)
}

/// The body of a request for a page of users.
#[derive(Debug, Clone, PartialEq, Eq)]
pub struct ListUsersRequest {
    pub page: u32,
    pub per_page: u32,
    pub search_query: Option<String>,
}

/// Starts the listing that the request asks for.
pub fn list_users(service: &UsersService, data: ListUsersRequest) -> (step: Step)
    ensures
        step@ == list_start(data.page, data.per_page, data.search_query.deep_view()),
{
    service.list(data.page, data.per_page, data.search_query)
}

/// The body of a request to change a user: the changes, and the current
/// password where the password is among them.
#[derive(Debug, Clone, PartialEq, Eq)]
pub struct UpdateUserRequest {
    pub username: Option<String>,
    pub email: Option<String>,
    pub password: Option<String>,
    pub old_password: Option<String>,
    pub first_name: Option<String>,
    pub last_name: Option<String>,
    pub bio: Option<String>,
}

impl UpdateUserRequest {
    /// The changes that the request asks for.
    pub open spec fn changes(self) -> UpdateUserView {
        UpdateUserView {
            username: self.username.deep_view(),
            email: self.email.deep_view(),
            password: self.password.deep_view(),
            first_name: self.first_name.deep_view(),
            last_name: self.last_name.deep_view(),
            bio: self.bio.deep_view(),
        }
    }
}

/// Starts the update that the request asks for, on the user with the
/// identifier of the path.
pub fn update_user(service: &UsersService, id: &str, data: UpdateUserRequest) -> (step: Step)
    ensures
        step@ == update_start(id@, data.changes(), data.old_password.deep_view()),
{
    let upd = UpdateUser {
        username: data.username,
        email: data.email,
        password: data.password,
        first_name: data.first_name,
        last_name: data.last_name,
        bio: data.bio,
    };
    service.update(id, upd, data.old_password)
}

/// The answer to a deletion: the identifier of the user that is gone.
#[derive(Debug, Clone, Copy, PartialEq, Eq)]
pub struct DeleteUserResponse {
    pub deleted_id: UserId,
}

/// Starts the deletion of the user with the identifier of the path.
pub fn delete_user(service: &UsersService, id: &str) -> (step: Step)
    ensures
        step@ == delete_start(id@),
{
    service.delete(id)
}

/// What the result of a deletion is answered with.
pub open spec fn deletion_answer(result: Result<OutcomeView, ServiceErrorView>) -> Result<
    DeleteUserResponse,
    ServiceErrorView,
> {
    match result {
        Ok(OutcomeView::Deleted(deleted_id)) => Ok(DeleteUserResponse { deleted_id }),
        Ok(_) => Err(ServiceErrorView::DatabaseError("unexpected reply from the store"@)),
        Err(e) => Err(e),
    }
}

/// The mathematical content of the answer to a deletion.
pub open spec fn answer_view(answer: Result<DeleteUserResponse, UsersServiceError>) -> Result<
    DeleteUserResponse,
    ServiceErrorView,
> {
    match answer {
        Ok(response) => Ok(response),
        Err(e) => Err(e@),
    }
}

/// Makes the answer to a deletion of its result.
pub fn delete_user_response(result: Result<Outcome, UsersServiceError>) -> (answer: Result<
    DeleteUserResponse,
    UsersServiceError,
>)
    ensures
        answer_view(answer) == deletion_answer(result_view(result)),
{
    match result {
        Ok(Outcome::Deleted(deleted_id)) => Ok(DeleteUserResponse { deleted_id }),
        Ok(_) => Err(
            UsersServiceError::DatabaseError(String::from_str("unexpected reply from the store")),
        ),
        Err(e) => Err(e),
    }
}

} // verus!
