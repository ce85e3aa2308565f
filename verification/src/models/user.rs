//! Users, and the requests and answers that speak of them.

use vstd::prelude::*;
use crate::models::password::{
    acceptable, acceptable_passwords_pass, check_password, password_errors,
};
use crate::validation::{
    check_email, email_errors, email_well_formed, lacks_at_sign, validation_view, verdict_of,
    FieldErrorView, ValidationErrors,
};

verus! {

/// The value that a text denotes as a UUID, where it denotes one. The
/// accepted notations are those of the `uuid` crate; left uninterpreted.
pub uninterp spec fn uuid_parsed(s: Seq<char>) -> Option<u128>;

/// The hyphenated lower-case notation of a UUID. Left uninterpreted.
pub uninterp spec fn uuid_text(value: u128) -> Seq<char>;

/// Trusted: `Uuid::parse_str` of `uuid`, with the value taken out by
/// `Uuid::as_u128` and the error dropped. The contract only names the result.
#[verifier::external_body]
pub(crate) fn parse_uuid(s: &str) -> (value: Option<u128>)
    ensures
        value == uuid_parsed(s@),
{
    match uuid::Uuid::parse_str(s) {
        Ok(id) => Some(id.as_u128()),
        Err(_) => None,
    }
}

/// Trusted: the `Display` of `uuid::Uuid`, on the identifier built by
/// `Uuid::from_u128`. The contract only names the result.
#[verifier::external_body]
pub(crate) fn format_uuid(value: u128) -> (s: String)
    ensures
        s@ == uuid_text(value),
{
    uuid::Uuid::from_u128(value).to_string()
}

/// Trusted: `Utc::now` of `chrono`, as seconds since the epoch and the
/// nanoseconds within the second. `Utc::now` takes its seconds from the
/// time that has passed since the epoch and does not return for a clock
/// set before it, so the seconds are never negative. Nothing else is
/// claimed about the instant.
#[verifier::external_body]
pub(crate) fn now() -> (t: Timestamp)
    ensures
        0 <= t.secs,
{
    let t = chrono::Utc::now();
    Timestamp { secs: t.timestamp(), nanos: t.timestamp_subsec_nanos() }
}

/// The identifier of a user: a UUID, held as its 128-bit value.
#[derive(Debug, Clone, Copy, PartialEq, Eq, Structural, Hash)]
pub struct UserId {
    pub value: u128,
}

/// The identifier that a text denotes, where it denotes one.
pub open spec fn parsed_id(id: Seq<char>) -> Option<UserId> {
    match uuid_parsed(id) {
        Some(value) => Some(UserId { value }),
        None => None,
    }
}

impl UserId {
    /// The identifier that stands for "nobody": all bits zero.
    pub fn nil() -> (id: Self)
        ensures
            id.value == 0,
    {
        UserId { value: 0 }
    }

    /// Whether this is the identifier that stands for "nobody".
    pub fn is_nil(&self) -> (nil: bool)
        ensures
            nil == (self.value == 0),
    {
        self.value == 0
    }

    /// Reads an identifier from its text, in any notation of a UUID.
    pub fn parse_str(s: &str) -> (id: Option<Self>)
        ensures
            id == parsed_id(s@),
    {
        match parse_uuid(s) {
            Some(value) => Some(UserId { value }),
            None => None,
        }
    }

    /// The identifier in hyphenated lower-case notation.
    pub fn to_string(&self) -> (s: String)
        ensures
            s@ == uuid_text(self.value),
    {
        format_uuid(self.value)
    }
}

/// An instant: seconds since the Unix epoch, and nanoseconds within that
/// second.
#[derive(Debug, Clone, Copy, PartialEq, Eq, Structural, Hash)]
pub struct Timestamp {
    pub secs: i64,
    pub nanos: u32,
}

/// A registered user, without the password hash.
#[derive(Debug, Clone, PartialEq, Eq)]
pub struct User {
    pub id: UserId,
    pub username: String,
    pub email: String,
    pub first_name: Option<String>,
    pub last_name: Option<String>,
    pub bio: Option<String>,
    pub created_at: Timestamp,
}

/// The mathematical content of a [`User`].
pub ghost struct UserView {
    pub id: UserId,
    pub username: Seq<char>,
    pub email: Seq<char>,
    pub first_name: Option<Seq<char>>,
    pub last_name: Option<Seq<char>>,
    pub bio: Option<Seq<char>>,
    pub created_at: Timestamp,
}

impl View for User {
    type V = UserView;

    open spec fn view(&self) -> UserView {
        UserView {
            id: self.id,
            username: self.username@,
            email: self.email@,
            first_name: self.first_name.deep_view(),
            last_name: self.last_name.deep_view(),
            bio: self.bio.deep_view(),
            created_at: self.created_at,
        }
    }
}

/// The contents of a list of users, in order.
pub open spec fn user_views(users: Seq<User>) -> Seq<UserView> {
    users.map_values(|u: User| u@)
}

/// The anonymous user as of the instant `created_at`: the nil identifier, no
/// name and no address.
pub open spec fn anonymous(created_at: Timestamp) -> UserView {
    UserView {
        id: UserId { value: 0 },
        username: Seq::empty(),
        email: Seq::empty(),
        first_name: None,
        last_name: None,
        bio: None,
        created_at,
    }
}

impl Default for User {
    /// The anonymous user, created now: at some instant not before the
    /// epoch.
    fn default() -> (user: Self)
        ensures
            user@ == anonymous(user@.created_at),
            0 <= user@.created_at.secs,
    {
        User::anonymous_at(now())
    }
}

impl User {
    /// The anonymous user as of the instant `created_at`.
    pub fn anonymous_at(created_at: Timestamp) -> (user: Self)
        ensures
            user@ == anonymous(created_at),
    {
        User {
            id: UserId::nil(),
            username: String::new(),
            email: String::new(),
            first_name: None,
            last_name: None,
            bio: None,
            created_at,
        }
    }

    /// Whether this user is signed in, which every user but the anonymous one
    /// is.
    pub fn is_authenticated(&self) -> (yes: bool)
        ensures
            yes == (self@.id.value != 0),
    {
        !self.id.is_nil()
    }

    /// Whether this user may act, which every user but the anonymous one may.
    pub fn is_active(&self) -> (yes: bool)
        ensures
            yes == (self@.id.value != 0),
    {
        !self.id.is_nil()
    }

    /// Whether this is the anonymous user.
    pub fn is_anonymous(&self) -> (yes: bool)
        ensures
            yes == (self@.id.value == 0),
    {
        self.id.is_nil()
    }
}

/// What is asked of a new account.
#[derive(Debug, Clone, PartialEq, Eq)]
pub struct CreateUser {
    pub username: String,
    pub email: String,
    pub password: String,
    pub first_name: Option<String>,
    pub last_name: Option<String>,
    pub bio: Option<String>,
}

/// The mathematical content of a [`CreateUser`] and of a [`SignUpRequest`].
pub ghost struct NewAccountView {
    pub username: Seq<char>,
    pub email: Seq<char>,
    pub password: Seq<char>,
    pub first_name: Option<Seq<char>>,
    pub last_name: Option<Seq<char>>,
    pub bio: Option<Seq<char>>,
}

impl View for CreateUser {
    type V = NewAccountView;

    open spec fn view(&self) -> NewAccountView {
        NewAccountView {
            username: self.username@,
            email: self.email@,
            password: self.password@,
            first_name: self.first_name.deep_view(),
            last_name: self.last_name.deep_view(),
            bio: self.bio.deep_view(),
        }
    }
}

/// The failures that checking a new account finds: those of its address,
/// then those of its password.
pub open spec fn account_errors(email: Seq<char>, password: Seq<char>) -> Seq<FieldErrorView> {
    email_errors(email) + password_errors("password"@, password)
}

/// A new account passes its checks exactly when its address is well formed
/// and its password acceptable.
pub proof fn valid_accounts_pass(email: Seq<char>, password: Seq<char>)
    ensures
        account_errors(email, password).len() == 0 <==> email_well_formed(email) && acceptable(
            password,
        ),
{
    acceptable_passwords_pass("password"@, password);
}

impl CreateUser {
    /// Checks the address and the password. Every failure is reported, not
    /// only the first.
    pub fn validate(&self) -> (res: Result<(), ValidationErrors>)
        ensures
            validation_view(res) == verdict_of(account_errors(self@.email, self@.password)),
            res is Ok <==> email_well_formed(self@.email) && acceptable(self@.password),
            lacks_at_sign(self@.email) ==> res is Err,
    {
        proof {
            valid_accounts_pass(self@.email, self@.password);
        }
        let mut errors = ValidationErrors::new();
        check_email(&mut errors, self.email.as_str());
        check_password(&mut errors, "password", self.password.as_str());
        errors.into_result()
    }
}

/// The changes asked for on an account; a field left out stays as it is.
#[derive(Debug, Clone, PartialEq, Eq)]
pub struct UpdateUser {
    pub username: Option<String>,
    pub email: Option<String>,
    pub password: Option<String>,
    pub first_name: Option<String>,
    pub last_name: Option<String>,
    pub bio: Option<String>,
}

/// The mathematical content of an [`UpdateUser`].
pub ghost struct UpdateUserView {
    pub username: Option<Seq<char>>,
    pub email: Option<Seq<char>>,
    pub password: Option<Seq<char>>,
    pub first_name: Option<Seq<char>>,
    pub last_name: Option<Seq<char>>,
    pub bio: Option<Seq<char>>,
}

impl View for UpdateUser {
    type V = UpdateUserView;

    open spec fn view(&self) -> UpdateUserView {
        UpdateUserView {
            username: self.username.deep_view(),
            email: self.email.deep_view(),
            password: self.password.deep_view(),
            first_name: self.first_name.deep_view(),
            last_name: self.last_name.deep_view(),
            bio: self.bio.deep_view(),
        }
    }
}

/// The number of users on a page where the filter names none.
pub const DEFAULT_LIMIT: i64 = 20;

/// A filter on the list of users: a term to look for in names and
/// addresses, how many users to return and how many to pass over first.
#[derive(Debug, Clone, PartialEq, Eq)]
pub struct UserSearch {
    pub search: Option<String>,
    pub limit: Option<i64>,
    pub offset: Option<i64>,
}

/// The mathematical content of a [`UserSearch`].
pub ghost struct UserSearchView {
    pub search: Option<Seq<char>>,
    pub limit: Option<i64>,
    pub offset: Option<i64>,
}

impl View for UserSearch {
    type V = UserSearchView;

    open spec fn view(&self) -> UserSearchView {
        UserSearchView {
            search: self.search.deep_view(),
            limit: self.limit,
            offset: self.offset,
        }
    }
}

impl Default for UserSearch {
    /// No term, the first twenty users.
    fn default() -> (filter: Self)
        ensures
            filter@ == (UserSearchView {
                search: None,
                limit: Some(DEFAULT_LIMIT),
                offset: Some(0),
            }),
    {
        UserSearch { search: None, limit: Some(DEFAULT_LIMIT), offset: Some(0) }
    }
}

/// One page of the list of users, with the number of users that match in
/// all and the window that was asked for.
#[derive(Debug, Clone, PartialEq, Eq)]
pub struct UserListResponse {
    pub users: Vec<User>,
    pub total_count: i64,
    pub limit: i64,
    pub offset: i64,
}

/// The mathematical content of a [`UserListResponse`].
pub ghost struct UserListView {
    pub users: Seq<UserView>,
    pub total_count: i64,
    pub limit: i64,
    pub offset: i64,
}

impl View for UserListResponse {
    type V = UserListView;

    open spec fn view(&self) -> UserListView {
        UserListView {
            users: user_views(self.users@),
            total_count: self.total_count,
            limit: self.limit,
            offset: self.offset,
        }
    }
}

/// The credentials that a user signs in with.
#[derive(Debug, Clone, PartialEq, Eq)]
pub struct SignInRequest {
    pub email: String,
    pub password: String,
}

/// The mathematical content of a [`SignInRequest`].
pub ghost struct SignInRequestView {
    pub email: Seq<char>,
    pub password: Seq<char>,
}

impl View for SignInRequest {
    type V = SignInRequestView;

    open spec fn view(&self) -> SignInRequestView {
        SignInRequestView { email: self.email@, password: self.password@ }
    }
}

impl SignInRequest {
    /// Checks the address. The password is not looked at here: whether it is
    /// the right one is for the sign-in itself to find out.
    pub fn validate(&self) -> (res: Result<(), ValidationErrors>)
        ensures
            validation_view(res) == verdict_of(email_errors(self@.email)),
            res is Ok <==> email_well_formed(self@.email),
            lacks_at_sign(self@.email) ==> res is Err,
    {
        let mut errors = ValidationErrors::new();
        check_email(&mut errors, self.email.as_str());
        errors.into_result()
    }
}

/// A user together with the token that was issued for them.
#[derive(Debug, Clone, PartialEq, Eq)]
pub struct SignInResponse {
    pub user: User,
    pub token: String,
}

/// The mathematical content of a [`SignInResponse`] and of a
/// [`SignUpResponse`].
pub ghost struct SessionView {
    pub user: UserView,
    pub token: Seq<char>,
}

impl View for SignInResponse {
    type V = SessionView;

    open spec fn view(&self) -> SessionView {
        SessionView { user: self.user@, token: self.token@ }
    }
}

/// What a visitor registers with.
#[derive(Debug, Clone, PartialEq, Eq)]
pub struct SignUpRequest {
    pub username: String,
    pub email: String,
    pub password: String,
    pub first_name: Option<String>,
    pub last_name: Option<String>,
    pub bio: Option<String>,
}

impl View for SignUpRequest {
    type V = NewAccountView;

    open spec fn view(&self) -> NewAccountView {
        NewAccountView {
            username: self.username@,
            email: self.email@,
            password: self.password@,
            first_name: self.first_name.deep_view(),
            last_name: self.last_name.deep_view(),
            bio: self.bio.deep_view(),
        }
    }
}

impl SignUpRequest {
    /// Checks the address and the password. Every failure is reported, not
    /// only the first.
    pub fn validate(&self) -> (res: Result<(), ValidationErrors>)
        ensures
            validation_view(res) == verdict_of(account_errors(self@.email, self@.password)),
            res is Ok <==> email_well_formed(self@.email) && acceptable(self@.password),
            lacks_at_sign(self@.email) ==> res is Err,
    {
        proof {
            valid_accounts_pass(self@.email, self@.password);
        }
        let mut errors = ValidationErrors::new();
        check_email(&mut errors, self.email.as_str());
        check_password(&mut errors, "password", self.password.as_str());
        errors.into_result()
    }
}

/// A new user together with the token that was issued for them.
#[derive(Debug, Clone, PartialEq, Eq)]
pub struct SignUpResponse {
    pub user: User,
    pub token: String,
}

impl View for SignUpResponse {
    type V = SessionView;

    open spec fn view(&self) -> SessionView {
        SessionView { user: self.user@, token: self.token@ }
    }
}

} // verus!
