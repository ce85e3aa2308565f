//! The table of users, seen from the service: which statement each
//! operation runs, with which arguments, and what its answer means. Running
//! a statement is left to whoever holds the connection.

use vstd::prelude::*;
use crate::models::user::{
    user_views, CreateUser, NewAccountView, UpdateUser, UpdateUserView, User, UserId,
    UserListResponse, UserListView, UserSearch, UserSearchView, UserView, DEFAULT_LIMIT,
};
use crate::storage::hashing::{
    hash_password, hashed_view, hashes, verdict_view, verification, verify_password, HashError,
};
use crate::text::lowercased;

verus! {

/// The form in which an e-mail address is stored and looked up: lower case,
/// so that addresses that differ only in case are one address.
pub open spec fn email_key(email: Seq<char>) -> Seq<char> {
    lowercased(email)
}

/// A user as it is written to the table: the password is present only as
/// its hash, the address only as its key.
#[derive(Debug, Clone, PartialEq, Eq)]
pub struct NewUser {
    pub username: String,
    pub email: String,
    pub password_hash: String,
    pub first_name: Option<String>,
    pub last_name: Option<String>,
    pub bio: Option<String>,
}

/// The mathematical content of a [`NewUser`].
pub ghost struct NewUserView {
    pub username: Seq<char>,
    pub email: Seq<char>,
    pub password_hash: Seq<char>,
    pub first_name: Option<Seq<char>>,
    pub last_name: Option<Seq<char>>,
    pub bio: Option<Seq<char>>,
}

impl View for NewUser {
    type V = NewUserView;

    open spec fn view(&self) -> NewUserView {
        NewUserView {
            username: self.username@,
            email: self.email@,
            password_hash: self.password_hash@,
            first_name: self.first_name.deep_view(),
            last_name: self.last_name.deep_view(),
            bio: self.bio.deep_view(),
        }
    }
}

/// The columns that an update writes; a column left out keeps its value.
#[derive(Debug, Clone, PartialEq, Eq)]
pub struct UserChanges {
    pub username: Option<String>,
    pub email: Option<String>,
    pub password_hash: Option<String>,
    pub first_name: Option<String>,
    pub last_name: Option<String>,
    pub bio: Option<String>,
}

/// The mathematical content of a [`UserChanges`].
pub ghost struct UserChangesView {
    pub username: Option<Seq<char>>,
    pub email: Option<Seq<char>>,
    pub password_hash: Option<Seq<char>>,
    pub first_name: Option<Seq<char>>,
    pub last_name: Option<Seq<char>>,
    pub bio: Option<Seq<char>>,
}

impl View for UserChanges {
    type V = UserChangesView;

    open spec fn view(&self) -> UserChangesView {
        UserChangesView {
            username: self.username.deep_view(),
            email: self.email.deep_view(),
            password_hash: self.password_hash.deep_view(),
            first_name: self.first_name.deep_view(),
            last_name: self.last_name.deep_view(),
            bio: self.bio.deep_view(),
        }
    }
}

/// A statement on the table of users, with its arguments.
#[derive(Debug, Clone, PartialEq, Eq)]
pub enum Query {
    /// Insert a user and return it.
    InsertUser { row: NewUser },
    /// The stored password hash of the user with this address key.
    PasswordHashByEmail { email: String },
    /// The user with this address key.
    UserByEmail { email: String },
    /// The user with this name.
    UserByUsername { username: String },
    /// The user with this identifier.
    UserById { id: UserId },
    /// The number of users whose name or address holds the term, whatever
    /// the case, and those of them in the window, newest first.
    ListUsers { search: Option<String>, limit: i64, offset: i64 },
    /// Write the changes to the user with this identifier and return it.
    UpdateUser { id: UserId, changes: UserChanges },
    /// Delete the user with this identifier and return the identifier.
    DeleteUser { id: UserId },
}

/// The mathematical content of a [`Query`].
pub ghost enum QueryView {
    InsertUser { row: NewUserView },
    PasswordHashByEmail { email: Seq<char> },
    UserByEmail { email: Seq<char> },
    UserByUsername { username: Seq<char> },
    UserById { id: UserId },
    ListUsers { search: Option<Seq<char>>, limit: i64, offset: i64 },
    UpdateUser { id: UserId, changes: UserChangesView },
    DeleteUser { id: UserId },
}

impl View for Query {
    type V = QueryView;

    open spec fn view(&self) -> QueryView {
        match self {
            Query::InsertUser { row } => QueryView::InsertUser { row: row@ },
            Query::PasswordHashByEmail { email } => QueryView::PasswordHashByEmail {
                email: email@,
            },
            Query::UserByEmail { email } => QueryView::UserByEmail { email: email@ },
            Query::UserByUsername { username } => QueryView::UserByUsername {
                username: username@,
            },
            Query::UserById { id } => QueryView::UserById { id: *id },
            Query::ListUsers { search, limit, offset } => QueryView::ListUsers {
                search: search.deep_view(),
                limit: *limit,
                offset: *offset,
            },
            Query::UpdateUser { id, changes } => QueryView::UpdateUser {
                id: *id,
                changes: changes@,
            },
            Query::DeleteUser { id } => QueryView::DeleteUser { id: *id },
        }
    }
}

/// What came back from running a statement.
#[derive(Debug, Clone, PartialEq, Eq)]
pub enum Reply {
    /// The user that was asked for, inserted or updated, if there is one.
    User { user: Option<User> },
    /// The stored password hash, if the user exists.
    PasswordHash { hash: Option<String> },
    /// The number of matching users, and the users in the window.
    Page { total_count: Option<i64>, users: Vec<User> },
    /// The identifier of the user that was deleted, if there was one.
    Deleted { id: Option<UserId> },
    /// The statement failed, for this reason.
    Failed { reason: String },
}

/// The mathematical content of a [`Reply`].
pub ghost enum ReplyView {
    User { user: Option<UserView> },
    PasswordHash { hash: Option<Seq<char>> },
    Page { total_count: Option<i64>, users: Seq<UserView> },
    Deleted { id: Option<UserId> },
    Failed { reason: Seq<char> },
}

/// The mathematical content of a user that may be absent.
pub open spec fn found_view(user: Option<User>) -> Option<UserView> {
    match user {
        Some(u) => Some(u@),
        None => None,
    }
}

impl View for Reply {
    type V = ReplyView;

    open spec fn view(&self) -> ReplyView {
        match self {
            Reply::User { user } => ReplyView::User { user: found_view(*user) },
            Reply::PasswordHash { hash } => ReplyView::PasswordHash { hash: hash.deep_view() },
            Reply::Page { total_count, users } => ReplyView::Page {
                total_count: *total_count,
                users: user_views(users@),
            },
            Reply::Deleted { id } => ReplyView::Deleted { id: *id },
            Reply::Failed { reason } => ReplyView::Failed { reason: reason@ },
        }
    }
}

/// Why the storage layer could not do its part, short of a failure of the
/// store itself, which comes back as [`Reply::Failed`].
#[derive(Debug, Clone, Copy, PartialEq, Eq)]
pub enum StorageError {
    /// A password could not be hashed, or a stored hash could not be read or
    /// was not there.
    WorkerCrashed,
}

/// The mathematical content of a [`StorageError`].
pub ghost enum StorageErrorView {
    WorkerCrashed,
}

impl View for StorageError {
    type V = StorageErrorView;

    open spec fn view(&self) -> StorageErrorView {
        match self {
            StorageError::WorkerCrashed => StorageErrorView::WorkerCrashed,
        }
    }
}

impl StorageErrorView {
    /// The error as a line of text.
    pub open spec fn rendered(self) -> Seq<char> {
        match self {
            StorageErrorView::WorkerCrashed =>
                "attempted to communicate with a crashed background worker"@,
        }
    }
}

impl StorageError {
    /// The error as a line of text.
    pub fn to_string(&self) -> (s: String)
        ensures
            s@ == self@.rendered(),
    {
        match self {
            StorageError::WorkerCrashed => String::from_str(
                "attempted to communicate with a crashed background worker",
            ),
        }
    }
}

/// The mathematical content of a statement that may have failed to be made.
pub open spec fn planned_view(res: Result<Query, StorageError>) -> Result<
    QueryView,
    StorageErrorView,
> {
    match res {
        Ok(query) => Ok(query@),
        Err(e) => Err(e@),
    }
}

/// The mathematical content of a verdict that may have failed to be reached.
pub open spec fn checked_view(res: Result<bool, StorageError>) -> Result<bool, StorageErrorView> {
    match res {
        Ok(accepted) => Ok(accepted),
        Err(e) => Err(e@),
    }
}

/// The row that registers `data` with the password hash `hash`.
pub open spec fn new_user_row(data: NewAccountView, hash: Seq<char>) -> NewUserView {
    NewUserView {
        username: data.username,
        email: email_key(data.email),
        password_hash: hash,
        first_name: data.first_name,
        last_name: data.last_name,
        bio: data.bio,
    }
}

/// The statement that registers `data`, given what hashing its password
/// gave: the insertion of its row, or no statement where hashing failed.
pub open spec fn insertion(data: NewAccountView, hashed: Result<Seq<char>, Seq<char>>) -> Result<
    QueryView,
    StorageErrorView,
> {
    match hashed {
        Ok(hash) => Ok(QueryView::InsertUser { row: new_user_row(data, hash) }),
        Err(_) => Err(StorageErrorView::WorkerCrashed),
    }
}

/// The address key of an address that may be absent.
pub open spec fn optional_key(email: Option<Seq<char>>) -> Option<Seq<char>> {
    match email {
        Some(e) => Some(email_key(e)),
        None => None,
    }
}

/// The columns that `data` changes, with the hash of the new password where
/// it names one.
pub open spec fn changes_of(data: UpdateUserView, hash: Option<Seq<char>>) -> UserChangesView {
    UserChangesView {
        username: data.username,
        email: optional_key(data.email),
        password_hash: hash,
        first_name: data.first_name,
        last_name: data.last_name,
        bio: data.bio,
    }
}

/// The statement that applies `data` to the user `id`, given what hashing
/// the new password gave. Where `data` names no new password nothing was
/// hashed, and `hashed` has no part in the result.
pub open spec fn alteration(
    id: UserId,
    data: UpdateUserView,
    hashed: Result<Seq<char>, Seq<char>>,
) -> Result<QueryView, StorageErrorView> {
    match data.password {
        None => Ok(QueryView::UpdateUser { id, changes: changes_of(data, None) }),
        Some(_) => match hashed {
            Ok(hash) => Ok(QueryView::UpdateUser { id, changes: changes_of(data, Some(hash)) }),
            Err(_) => Err(StorageErrorView::WorkerCrashed),
        },
    }
}

/// The statement that lists the users of a filter: twenty users where the
/// filter names no limit, from the first where it names no offset.
pub open spec fn listing(data: UserSearchView) -> QueryView {
    QueryView::ListUsers {
        search: data.search,
        limit: match data.limit {
            Some(limit) => limit,
            None => DEFAULT_LIMIT,
        },
        offset: match data.offset {
            Some(offset) => offset,
            None => 0,
        },
    }
}

/// The page made of what a listing returned: a count that is absent reads as
/// zero.
pub open spec fn page_of(
    total_count: Option<i64>,
    users: Seq<UserView>,
    limit: i64,
    offset: i64,
) -> UserListView {
    UserListView {
        users,
        total_count: match total_count {
            Some(n) => n,
            None => 0,
        },
        limit,
        offset,
    }
}

/// What a check against the stored hash of a user gave, where `checked` is
/// `None` for a user without stored hash: an error where no hash is stored
/// or the stored one cannot be read, else whether it accepts the password.
pub open spec fn verdict_of(checked: Option<Result<bool, Seq<char>>>) -> Result<
    bool,
    StorageErrorView,
> {
    match checked {
        Some(Ok(accepted)) => Ok(accepted),
        _ => Err(StorageErrorView::WorkerCrashed),
    }
}

/// What the stored hash of a user says of a password.
pub open spec fn stored_verdict(hash: Option<Seq<char>>, password: Seq<char>) -> Result<
    bool,
    StorageErrorView,
> {
    verdict_of(
        match hash {
            Some(h) => Some(verification(h, password)),
            None => None,
        },
    )
}

/// The mathematical content of a check that may not have been made.
pub open spec fn made_view(checked: Option<Result<bool, HashError>>) -> Option<
    Result<bool, Seq<char>>,
> {
    match checked {
        Some(res) => Some(verdict_view(res)),
        None => None,
    }
}

/// The storage layer of the service. It decides what is written and what is
/// asked; it holds no connection.
#[derive(Debug, Clone, PartialEq, Eq)]
pub struct UsersStorage {}

impl UsersStorage {
    /// The storage layer.
    pub fn new() -> (storage: Self)
        ensures
            storage == (UsersStorage {  }),
    {
        UsersStorage {  }
    }

    /// The statement that registers `data`, given what hashing its password
    /// gave.
    pub fn create_with(
        &self,
        data: CreateUser,
        hashed: Result<String, HashError>,
    ) -> (res: Result<Query, StorageError>)
        ensures
            planned_view(res) == insertion(data@, hashed_view(hashed)),
    {
        match hashed {
            Ok(password_hash) => {
                let row = NewUser {
                    username: data.username,
                    email: data.email.as_str().to_lowercase(),
                    password_hash,
                    first_name: data.first_name,
                    last_name: data.last_name,
                    bio: data.bio,
                };
                Ok(Query::InsertUser { row })
            },
            Err(_) => Err(StorageError::WorkerCrashed),
        }
    }

    /// Hashes the password of `data` and gives the statement that registers
    /// `data`. The salt is random: the hash is some hash that accepts the
    /// password.
    pub fn create(&self, data: CreateUser) -> (res: Result<Query, StorageError>)
        ensures
            exists|hashed: Result<Seq<char>, Seq<char>>|
                hashes(hashed, data@.password) && planned_view(res) == #[trigger] insertion(
                    data@,
                    hashed,
                ),
    {
        let hashed = hash_password(data.password.as_str());
        let ghost witness = hashed_view(hashed);
        let res = self.create_with(data, hashed);
        assert(planned_view(res) == insertion(data@, witness));
        res
    }

    /// The statement that fetches the stored hash of the user with this
    /// address.
    pub fn verify_user(&self, email: &str) -> (query: Query)
        ensures
            query@ == (QueryView::PasswordHashByEmail { email: email_key(email@) }),
    {
        Query::PasswordHashByEmail { email: email.to_lowercase() }
    }

    /// What a check against the stored hash gave; `None` stands for a user
    /// without stored hash. A hash that is missing or cannot be read is an
    /// error, and not the answer "no".
    pub fn verdict(
        &self,
        checked: Option<Result<bool, HashError>>,
    ) -> (res: Result<bool, StorageError>)
        ensures
            checked_view(res) == verdict_of(made_view(checked)),
    {
        match checked {
            Some(Ok(accepted)) => Ok(accepted),
            _ => Err(StorageError::WorkerCrashed),
        }
    }

    /// What the answer to [`UsersStorage::verify_user`] says of `password`.
    pub fn check_password(
        &self,
        hash: Option<String>,
        password: &str,
    ) -> (res: Result<bool, StorageError>)
        ensures
            checked_view(res) == stored_verdict(hash.deep_view(), password@),
    {
        let checked = match hash {
            Some(h) => Some(verify_password(h.as_str(), password)),
            None => None,
        };
        self.verdict(checked)
    }

    /// The statement that fetches the user with this address.
    pub fn get_by_email(&self, email: &str) -> (query: Query)
        ensures
            query@ == (QueryView::UserByEmail { email: email_key(email@) }),
    {
        Query::UserByEmail { email: email.to_lowercase() }
    }

    /// The statement that fetches the user with this name.
    pub fn get_by_username(&self, username: &str) -> (query: Query)
        ensures
            query@ == (QueryView::UserByUsername { username: username@ }),
    {
        Query::UserByUsername { username: String::from_str(username) }
    }

    /// The statement that fetches the user with this identifier.
    pub fn get_by_id(&self, id: UserId) -> (query: Query)
        ensures
            query@ == (QueryView::UserById { id }),
    {
        Query::UserById { id }
    }

    /// The statement that lists the users of a filter.
    pub fn list_users(&self, data: UserSearch) -> (query: Query)
        ensures
            query@ == listing(data@),
    {
        let limit = match data.limit {
            Some(limit) => limit,
            None => DEFAULT_LIMIT,
        };
        let offset = match data.offset {
            Some(offset) => offset,
            None => 0,
        };
        Query::ListUsers { search: data.search, limit, offset }
    }

    /// The page made of what a listing returned.
    pub fn page(
        &self,
        total_count: Option<i64>,
        users: Vec<User>,
        limit: i64,
        offset: i64,
    ) -> (page: UserListResponse)
        ensures
            page@ == page_of(total_count, user_views(users@), limit, offset),
    {
        let total_count = match total_count {
            Some(n) => n,
            None => 0,
        };
        UserListResponse { users, total_count, limit, offset }
    }

    /// The statement that applies `data` to the user `id`, given what hashing
    /// the new password gave.
    pub fn update_with(
        &self,
        id: UserId,
        data: UpdateUser,
        hashed: Result<String, HashError>,
    ) -> (res: Result<Query, StorageError>)
        ensures
            planned_view(res) == alteration(id, data@, hashed_view(hashed)),
    {
        let password_hash = match data.password {
            None => None,
            Some(_) => match hashed {
                Ok(hash) => Some(hash),
                Err(_) => {
                    return Err(StorageError::WorkerCrashed);
                },
            },
        };
        let email = match data.email {
            Some(e) => Some(e.as_str().to_lowercase()),
            None => None,
        };
        let changes = UserChanges {
            username: data.username,
            email,
            password_hash,
            first_name: data.first_name,
            last_name: data.last_name,
            bio: data.bio,
        };
        Ok(Query::UpdateUser { id, changes })
    }

    /// Hashes the new password, where `data` names one, and gives the
    /// statement that applies `data` to the user `id`.
    pub fn update(&self, id: UserId, data: UpdateUser) -> (res: Result<Query, StorageError>)
        ensures
            exists|hashed: Result<Seq<char>, Seq<char>>|
                (data@.password matches Some(password) ==> hashes(hashed, password))
                    && planned_view(res) == #[trigger] alteration(id, data@, hashed),
    {
        let hashed = match &data.password {
            Some(password) => hash_password(password.as_str()),
            None => Err(HashError { reason: String::new() }),
        };
        let ghost witness = hashed_view(hashed);
        let res = self.update_with(id, data, hashed);
        assert(planned_view(res) == alteration(id, data@, witness));
        res
    }

    /// The statement that deletes the user with this identifier.
    pub fn delete(&self, id: UserId) -> (query: Query)
        ensures
            query@ == (QueryView::DeleteUser { id }),
    {
        Query::DeleteUser { id }
    }
}

} // verus!
