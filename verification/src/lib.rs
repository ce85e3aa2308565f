//! The core of a user-account service: registration, sign-in, profile
//! changes, lookups and paginated search.
//!
//! The service decides; it does not talk to a database. Each operation is
//! started by a method of [`services::UsersService`] and runs in steps
//! ([`services::Step`]): a step either asks for one statement on the table of
//! users to be run ([`storage::Query`]) and says where the operation waits
//! meanwhile ([`services::Pending`]), or it ends the operation with its
//! result. Whoever holds the connection runs the statement and hands the
//! answer ([`storage::Reply`]) to [`services::UsersService::resume`], until a
//! step ends the operation.
//!
//! Every function here is verified against a contract over the mathematical
//! content of its arguments. What comes from other crates (password
//! hashing, token signing, the check of e-mail addresses, UUIDs, the clock)
//! is called through a few small functions whose contracts are taken on
//! trust; each of them says so in its documentation.

pub mod controllers;
pub mod models;
pub mod router;
pub mod services;
pub mod storage;
pub mod text;
pub mod validation;
