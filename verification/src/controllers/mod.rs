//! The JSON surface: what each request starts, and what it is answered with.

pub mod users;

pub use users::{DeleteUserResponse, ListUsersRequest, UpdateUserRequest};
