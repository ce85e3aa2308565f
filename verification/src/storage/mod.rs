//! What the service keeps: password hashes, and the statements that read and
//! write the table of users.

pub mod hashing;
pub mod users_storage;

pub use hashing::{hash_password, verify_password, HashError};
pub use users_storage::{NewUser, Query, Reply, StorageError, UserChanges, UsersStorage};
