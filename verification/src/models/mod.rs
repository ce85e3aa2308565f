//! The data that the service takes and gives.

pub mod password;
pub mod user;

pub use password::validate_password;
pub use user::{
    CreateUser, SignInRequest, SignInResponse, SignUpRequest, SignUpResponse, Timestamp,
    UpdateUser, User, UserId, UserListResponse, UserSearch,
};
