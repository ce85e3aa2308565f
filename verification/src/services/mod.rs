//! The service layer: validation, credentials, tokens, pagination and the
//! sorting of failures.

pub mod errors;
pub mod laws;
pub mod protocol;
pub mod token;
pub mod users_service;

pub use errors::UsersServiceError;
pub use protocol::{Outcome, Pending, Step};
pub use token::Claims;
pub use users_service::UsersService;
