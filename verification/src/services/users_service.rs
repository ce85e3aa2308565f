//! The operations of the service: sign-in, registration, lookups, listing,
//! update and deletion. Each is started by the method of its name and
//! carried on by [`UsersService::resume`] with each answer of the store.

use vstd::prelude::*;
use crate::models::user::{
    account_errors, now, parsed_id, CreateUser, NewAccountView, SessionView, SignInRequest,
    SignInRequestView, SignInResponse, SignUpRequest, SignUpResponse, UpdateUser, UpdateUserView,
    User, UserId, UserSearch, UserView,
};
use crate::services::errors::{rejection, ServiceErrorView, UsersServiceError};
use crate::services::protocol::{
    failed, succeeded, unexpected, Outcome, OutcomeView, Pending, PendingView, Step, StepView,
};
use crate::services::token::{mint, mint_at, minted, token_view};
use crate::storage::hashing::{hash_password, hashed_view, hashes, HashError};
use crate::storage::users_storage::{
    alteration, checked_view, email_key, insertion, page_of, planned_view, stored_verdict,
    Query, QueryView, Reply, ReplyView, StorageError, StorageErrorView, UsersStorage,
};
use crate::validation::{
    email_errors, validation_view, verdict_of, FieldErrorView, ValidationErrors,
};

verus! {

/// The step that a statement which may have failed to be made leads to: the
/// statement is asked and the operation waits at `pending`, or the operation
/// ends with the failure as an error of the store.
pub open spec fn ask_or_fail(
    planned: Result<QueryView, StorageErrorView>,
    pending: PendingView,
) -> StepView {
    match planned {
        Ok(query) => StepView::Ask { query, pending },
        Err(e) => failed(ServiceErrorView::DatabaseError(e.rendered())),
    }
}

/// How a sign-in goes on from the validation of its credentials: bad
/// credentials are turned away; for others the user is looked up by the key
/// of the address.
pub open spec fn sign_in_validated(
    credentials: SignInRequestView,
    validation: Result<(), Seq<FieldErrorView>>,
) -> StepView {
    match validation {
        Ok(()) => StepView::Ask {
            query: QueryView::UserByEmail { email: email_key(credentials.email) },
            pending: PendingView::SignInUser { credentials },
        },
        Err(errors) => failed(rejection(errors)),
    }
}

/// How a sign-in starts.
pub open spec fn sign_in_start(credentials: SignInRequestView) -> StepView {
    sign_in_validated(credentials, verdict_of(email_errors(credentials.email)))
}

/// How a registration goes on from the validation of its request: a bad
/// request is turned away; for others the address is looked up, to learn
/// whether it is taken.
pub open spec fn sign_up_validated(
    data: NewAccountView,
    validation: Result<(), Seq<FieldErrorView>>,
) -> StepView {
    match validation {
        Ok(()) => StepView::Ask {
            query: QueryView::UserByEmail { email: email_key(data.email) },
            pending: PendingView::SignUpUser { data },
        },
        Err(errors) => failed(rejection(errors)),
    }
}

/// How a registration starts.
pub open spec fn sign_up_start(data: NewAccountView) -> StepView {
    sign_up_validated(data, verdict_of(account_errors(data.email, data.password)))
}

/// How a creation goes on from the validation of its request, given what
/// hashing the password gave: a bad request is turned away; for others the
/// user is inserted.
pub open spec fn create_validated(
    data: NewAccountView,
    validation: Result<(), Seq<FieldErrorView>>,
    hashed: Result<Seq<char>, Seq<char>>,
) -> StepView {
    match validation {
        Ok(()) => ask_or_fail(insertion(data, hashed), PendingView::Create),
        Err(errors) => failed(rejection(errors)),
    }
}

/// How a creation starts, given what hashing the password gave.
pub open spec fn create_start(
    data: NewAccountView,
    hashed: Result<Seq<char>, Seq<char>>,
) -> StepView {
    create_validated(data, verdict_of(account_errors(data.email, data.password)), hashed)
}

/// How a lookup by address starts.
pub open spec fn get_by_email_start(email: Seq<char>) -> StepView {
    StepView::Ask {
        query: QueryView::UserByEmail { email: email_key(email) },
        pending: PendingView::Fetch,
    }
}

/// The step for an identifier that is no UUID.
pub open spec fn wrong_id() -> StepView {
    failed(ServiceErrorView::WrongCredentials("Wrong id format"@))
}

/// How a lookup by identifier goes on from the reading of the identifier.
pub open spec fn get_by_id_parsed(parsed: Option<UserId>) -> StepView {
    match parsed {
        Some(id) => StepView::Ask {
            query: QueryView::UserById { id },
            pending: PendingView::Fetch,
        },
        None => wrong_id(),
    }
}

/// How a lookup by identifier starts.
pub open spec fn get_by_id_start(id: Seq<char>) -> StepView {
    get_by_id_parsed(parsed_id(id))
}

/// The number of users to pass over before the page `page`, with `per_page`
/// users on a page. Pages are counted from one.
pub open spec fn page_offset(page: u32, per_page: u32) -> int {
    (page - 1) * per_page
}

/// How a listing starts: page zero is turned away; for others the window of
/// the page is asked for. A page that lies further out than a 64-bit offset
/// reaches holds no user in any store: it is "not found" without asking.
pub open spec fn list_start(page: u32, per_page: u32, search_query: Option<Seq<char>>) -> StepView {
    if page == 0 {
        failed(ServiceErrorView::WrongCredentials("Page must be greater than zero"@))
    } else if page_offset(page, per_page) > i64::MAX {
        failed(ServiceErrorView::NotFound)
    } else {
        StepView::Ask {
            query: QueryView::ListUsers {
                search: search_query,
                limit: per_page as i64,
                offset: page_offset(page, per_page) as i64,
            },
            pending: PendingView::List {
                limit: per_page as i64,
                offset: page_offset(page, per_page) as i64,
            },
        }
    }
}

/// How an update goes on from the reading of the identifier: with a lookup
/// of the user that is to be changed.
pub open spec fn update_parsed(
    parsed: Option<UserId>,
    data: UpdateUserView,
    old_password: Option<Seq<char>>,
) -> StepView {
    match parsed {
        Some(id) => StepView::Ask {
            query: QueryView::UserById { id },
            pending: PendingView::UpdateUser { data, old_password },
        },
        None => wrong_id(),
    }
}

/// How an update starts.
pub open spec fn update_start(
    user_id: Seq<char>,
    data: UpdateUserView,
    old_password: Option<Seq<char>>,
) -> StepView {
    update_parsed(parsed_id(user_id), data, old_password)
}

/// How a deletion goes on from the reading of the identifier.
pub open spec fn delete_parsed(parsed: Option<UserId>) -> StepView {
    match parsed {
        Some(id) => StepView::Ask {
            query: QueryView::DeleteUser { id },
            pending: PendingView::Delete,
        },
        None => wrong_id(),
    }
}

/// How a deletion starts.
pub open spec fn delete_start(id: Seq<char>) -> StepView {
    delete_parsed(parsed_id(id))
}

/// How a check of a name starts.
pub open spec fn check_username_start(username: Seq<char>) -> StepView {
    StepView::Ask {
        query: QueryView::UserByUsername { username },
        pending: PendingView::CheckUsername,
    }
}

/// The one answer to credentials that do not sign in, whatever is wrong
/// with them.
pub open spec fn invalid_credentials() -> ServiceErrorView {
    ServiceErrorView::WrongCredentials("Invalid email or password"@)
}

/// A sign-in after the lookup of its user: an unknown address is turned
/// away; for a known one the stored hash is asked for.
pub open spec fn after_sign_in_lookup(
    credentials: SignInRequestView,
    reply: ReplyView,
) -> StepView {
    match reply {
        ReplyView::Failed { reason } => failed(ServiceErrorView::DatabaseError(reason)),
        ReplyView::User { user: None } => failed(invalid_credentials()),
        ReplyView::User { user: Some(user) } => StepView::Ask {
            query: QueryView::PasswordHashByEmail { email: email_key(credentials.email) },
            pending: PendingView::SignInHash { user, password: credentials.password },
        },
        _ => unexpected(),
    }
}

/// The end of an operation that issues a token for `user`, given what
/// minting the token gave.
pub open spec fn session_opened(
    user: UserView,
    token: Result<Seq<char>, ServiceErrorView>,
    registered: bool,
) -> StepView {
    match token {
        Ok(token) => if registered {
            succeeded(OutcomeView::SignedUp(SessionView { user, token }))
        } else {
            succeeded(OutcomeView::SignedIn(SessionView { user, token }))
        },
        Err(e) => failed(e),
    }
}

/// The end of an operation that issues a token for `user` at `now`.
pub open spec fn session_step(
    secret: Seq<char>,
    user: UserView,
    now: i64,
    registered: bool,
) -> StepView {
    session_opened(user, minted(secret, user, now), registered)
}

/// What the verdict of the stored hash on a password leads to: a verdict
/// that could not be reached is an error of verification, "no" ends the
/// operation with `refusal`, and "yes" leads to `granted`.
pub open spec fn judged(
    verdict: Result<bool, StorageErrorView>,
    refusal: ServiceErrorView,
    granted: StepView,
) -> StepView {
    match verdict {
        Err(e) => failed(ServiceErrorView::VerificationError(e.rendered())),
        Ok(false) => failed(refusal),
        Ok(true) => granted,
    }
}

/// A sign-in after the stored hash came: a wrong password is turned away
/// with the same answer as an unknown address; the right one gets a token.
pub open spec fn after_sign_in_hash(
    secret: Seq<char>,
    user: UserView,
    password: Seq<char>,
    reply: ReplyView,
    now: i64,
) -> StepView {
    match reply {
        ReplyView::Failed { reason } => failed(ServiceErrorView::VerificationError(reason)),
        ReplyView::PasswordHash { hash } => judged(
            stored_verdict(hash, password),
            invalid_credentials(),
            session_step(secret, user, now, false),
        ),
        _ => unexpected(),
    }
}

/// A registration after the lookup of its address: an address that is taken
/// is turned away; one that is free, or whose lookup failed, is registered.
pub open spec fn after_sign_up_lookup(
    data: NewAccountView,
    reply: ReplyView,
    hashed: Result<Seq<char>, Seq<char>>,
) -> StepView {
    match reply {
        ReplyView::User { user: Some(_) } => failed(
            ServiceErrorView::WrongCredentials("Email already exists"@),
        ),
        ReplyView::User { user: None } | ReplyView::Failed { .. } => ask_or_fail(
            insertion(data, hashed),
            PendingView::SignUpInsert,
        ),
        _ => unexpected(),
    }
}

/// A registration after the insertion: the new user gets a token.
pub open spec fn after_sign_up_insert(secret: Seq<char>, reply: ReplyView, now: i64) -> StepView {
    match reply {
        ReplyView::Failed { reason } => failed(ServiceErrorView::DatabaseError(reason)),
        ReplyView::User { user: Some(user) } => session_step(secret, user, now, true),
        _ => unexpected(),
    }
}

/// A creation after the insertion.
pub open spec fn after_create(reply: ReplyView) -> StepView {
    match reply {
        ReplyView::Failed { reason } => failed(ServiceErrorView::DatabaseError(reason)),
        ReplyView::User { user: Some(user) } => succeeded(OutcomeView::User(user)),
        _ => unexpected(),
    }
}

/// The end of an operation that waited for one user: the user, or "not
/// found".
pub open spec fn after_fetch(reply: ReplyView) -> StepView {
    match reply {
        ReplyView::Failed { reason } => failed(ServiceErrorView::DatabaseError(reason)),
        ReplyView::User { user: Some(user) } => succeeded(OutcomeView::User(user)),
        ReplyView::User { user: None } => failed(ServiceErrorView::NotFound),
        _ => unexpected(),
    }
}

/// The end of a listing: the page, or "not found" for a page without users.
/// A page without users is an error here, and not an empty list: a caller
/// that would rather show an empty list has to take this error for one.
pub open spec fn after_list(limit: i64, offset: i64, reply: ReplyView) -> StepView {
    match reply {
        ReplyView::Failed { reason } => failed(ServiceErrorView::DatabaseError(reason)),
        ReplyView::Page { total_count, users } => if users.len() == 0 {
            failed(ServiceErrorView::NotFound)
        } else {
            succeeded(OutcomeView::Users(page_of(total_count, users, limit, offset)))
        },
        _ => unexpected(),
    }
}

/// The step that writes the changes `data` to the user `id`.
pub open spec fn write_step(
    id: UserId,
    data: UpdateUserView,
    hashed: Result<Seq<char>, Seq<char>>,
) -> StepView {
    ask_or_fail(alteration(id, data, hashed), PendingView::Fetch)
}

/// An update after the lookup of its user. A change of password needs the
/// current password: without it the update is turned away, with it the
/// stored hash is asked for. Other changes are written at once.
pub open spec fn after_update_lookup(
    data: UpdateUserView,
    old_password: Option<Seq<char>>,
    reply: ReplyView,
    hashed: Result<Seq<char>, Seq<char>>,
) -> StepView {
    match reply {
        ReplyView::Failed { reason } => failed(ServiceErrorView::DatabaseError(reason)),
        ReplyView::User { user: None } => failed(ServiceErrorView::NotFound),
        ReplyView::User { user: Some(existing) } => match data.password {
            Some(_) => match old_password {
                Some(old) => StepView::Ask {
                    query: QueryView::PasswordHashByEmail { email: email_key(existing.email) },
                    pending: PendingView::UpdateHash { user: existing, data, old_password: old },
                },
                None => failed(
                    ServiceErrorView::WrongCredentials(
                        "To change password please provide old password"@,
                    ),
                ),
            },
            None => write_step(existing.id, data, hashed),
        },
        _ => unexpected(),
    }
}

/// The answer to a current password that the stored hash does not accept.
pub open spec fn wrong_old_password() -> ServiceErrorView {
    ServiceErrorView::WrongCredentials("Wrong old password"@)
}

/// An update after the stored hash came: a wrong current password is turned
/// away; with the right one the changes are written.
pub open spec fn after_update_hash(
    user: UserView,
    data: UpdateUserView,
    old_password: Seq<char>,
    reply: ReplyView,
    hashed: Result<Seq<char>, Seq<char>>,
) -> StepView {
    match reply {
        ReplyView::Failed { reason } => failed(ServiceErrorView::VerificationError(reason)),
        ReplyView::PasswordHash { hash } => judged(
            stored_verdict(hash, old_password),
            wrong_old_password(),
            write_step(user.id, data, hashed),
        ),
        _ => unexpected(),
    }
}

/// The end of a deletion.
pub open spec fn after_delete(reply: ReplyView) -> StepView {
    match reply {
        ReplyView::Failed { reason } => failed(ServiceErrorView::DatabaseError(reason)),
        ReplyView::Deleted { id: Some(id) } => succeeded(OutcomeView::Deleted(id)),
        ReplyView::Deleted { id: None } => failed(ServiceErrorView::NotFound),
        _ => unexpected(),
    }
}

/// The end of a check of a name.
pub open spec fn after_check_username(reply: ReplyView) -> StepView {
    match reply {
        ReplyView::Failed { reason } => failed(ServiceErrorView::DatabaseError(reason)),
        ReplyView::User { user } => succeeded(OutcomeView::UsernameExists(user is Some)),
        _ => unexpected(),
    }
}

/// The step that follows when the operation waiting at `pending` gets the
/// answer `reply` at the instant `now`, where hashing the password that the
/// step stores, if it stores one, gave `hashed`.
pub open spec fn next_step(
    secret: Seq<char>,
    pending: PendingView,
    reply: ReplyView,
    now: i64,
    hashed: Result<Seq<char>, Seq<char>>,
) -> StepView {
    match pending {
        PendingView::SignInUser { credentials } => after_sign_in_lookup(credentials, reply),
        PendingView::SignInHash { user, password } => after_sign_in_hash(
            secret,
            user,
            password,
            reply,
            now,
        ),
        PendingView::SignUpUser { data } => after_sign_up_lookup(data, reply, hashed),
        PendingView::SignUpInsert => after_sign_up_insert(secret, reply, now),
        PendingView::Create => after_create(reply),
        PendingView::Fetch => after_fetch(reply),
        PendingView::List { limit, offset } => after_list(limit, offset, reply),
        PendingView::UpdateUser { data, old_password } => after_update_lookup(
            data,
            old_password,
            reply,
            hashed,
        ),
        PendingView::UpdateHash { user, data, old_password } => after_update_hash(
            user,
            data,
            old_password,
            reply,
            hashed,
        ),
        PendingView::Delete => after_delete(reply),
        PendingView::CheckUsername => after_check_username(reply),
    }
}

/// The password that the step after `reply` may store, and so has hashed
/// before it decides: that of a registration whose address is free, and the
/// new one of an update whose stored hash came.
pub open spec fn password_to_store(pending: PendingView, reply: ReplyView) -> Option<Seq<char>> {
    match pending {
        PendingView::SignUpUser { data } => match reply {
            ReplyView::User { user: None } | ReplyView::Failed { .. } => Some(data.password),
            _ => None,
        },
        PendingView::UpdateHash { user, data, old_password } => match reply {
            ReplyView::PasswordHash { hash: Some(_) } => data.password,
            _ => None,
        },
        _ => None,
    }
}

/// The mathematical content of a text that may be absent.
pub open spec fn chosen_view(chosen: Option<&str>) -> Option<Seq<char>> {
    match chosen {
        Some(text) => Some(text@),
        None => None,
    }
}

/// Picks the password that the step after `reply` may store, if it may
/// store one.
pub fn password_to_hash<'a>(pending: &'a Pending, reply: &Reply) -> (chosen: Option<&'a str>)
    ensures
        chosen_view(chosen) == password_to_store(pending@, reply@),
{
    match pending {
        Pending::SignUpUser { data } => match reply {
            Reply::User { user: None } | Reply::Failed { .. } => Some(data.password.as_str()),
            _ => None,
        },
        Pending::UpdateHash { user, data, old_password } => match reply {
            Reply::PasswordHash { hash: Some(_) } => match &data.password {
                Some(password) => Some(password.as_str()),
                None => None,
            },
            _ => None,
        },
        _ => None,
    }
}

/// The error of the service for a failure of the storage layer.
fn storage_failure(e: StorageError) -> (error: UsersServiceError)
    ensures
        error@ == ServiceErrorView::DatabaseError(e@.rendered()),
{
    UsersServiceError::DatabaseError(e.to_string())
}

/// The step that a statement which may have failed to be made leads to.
fn ask(planned: Result<Query, StorageError>, pending: Pending) -> (step: Step)
    ensures
        step@ == ask_or_fail(planned_view(planned), pending@),
{
    match planned {
        Ok(query) => Step::Ask { query, pending },
        Err(e) => Step::fail(storage_failure(e)),
    }
}

/// The one answer to credentials that do not sign in.
fn reject_credentials() -> (step: Step)
    ensures
        step@ == failed(invalid_credentials()),
{
    Step::fail(UsersServiceError::WrongCredentials(String::from_str("Invalid email or password")))
}

/// The step for an identifier that is no UUID.
fn reject_id() -> (step: Step)
    ensures
        step@ == wrong_id(),
{
    Step::fail(UsersServiceError::WrongCredentials(String::from_str("Wrong id format")))
}

/// The service: the storage layer it plans its statements with, and the
/// secret it signs tokens under.
#[derive(Debug, Clone, PartialEq, Eq)]
pub struct UsersService {
    storage: UsersStorage,
    secret: String,
}

impl UsersService {
    /// The secret that tokens are signed under.
    pub closed spec fn signing_secret(&self) -> Seq<char> {
        self.secret@
    }

    /// A service that signs its tokens under `secret`.
    pub fn new(storage: UsersStorage, secret: String) -> (service: Self)
        ensures
            service.signing_secret() == secret@,
    {
        UsersService { storage, secret }
    }

    /// Mints a token for `user`, valid for seven days from now.
    pub fn generate_jwt_token(&self, user: &User) -> (res: Result<String, UsersServiceError>)
        ensures
            exists|at: i64|
                0 <= at && token_view(res) == #[trigger] minted(
                    self.signing_secret(),
                    user@,
                    at,
                ),
    {
        let res = mint(self.secret.as_str(), user);
        proof {
            let at = choose|at: i64|
                0 <= at && token_view(res) == minted(self.secret@, user@, at);
            assert(0 <= at && token_view(res) == minted(
                self.signing_secret(),
                user@,
                at,
            ));
        }
        res
    }

    /// Carries a sign-in on from the validation of its credentials.
    pub fn sign_in_validated(
        &self,
        credentials: SignInRequest,
        validation: Result<(), ValidationErrors>,
    ) -> (step: Step)
        ensures
            step@ == sign_in_validated(credentials@, validation_view(validation)),
    {
        match validation {
            Err(errors) => Step::fail(UsersServiceError::from(errors)),
            Ok(()) => {
                let query = self.storage.get_by_email(credentials.email.as_str());
                Step::Ask { query, pending: Pending::SignInUser { credentials } }
            },
        }
    }

    /// Starts a sign-in.
    pub fn sign_in(&self, credentials: SignInRequest) -> (step: Step)
        ensures
            step@ == sign_in_start(credentials@),
    {
        let validation = credentials.validate();
        self.sign_in_validated(credentials, validation)
    }

    /// Carries a registration on from the validation of its request.
    pub fn sign_up_validated(
        &self,
        user_data: SignUpRequest,
        validation: Result<(), ValidationErrors>,
    ) -> (step: Step)
        ensures
            step@ == sign_up_validated(user_data@, validation_view(validation)),
    {
        match validation {
            Err(errors) => Step::fail(UsersServiceError::from(errors)),
            Ok(()) => {
                let query = self.storage.get_by_email(user_data.email.as_str());
                Step::Ask { query, pending: Pending::SignUpUser { data: user_data } }
            },
        }
    }

    /// Starts a registration.
    pub fn sign_up(&self, user_data: SignUpRequest) -> (step: Step)
        ensures
            step@ == sign_up_start(user_data@),
    {
        let validation = user_data.validate();
        self.sign_up_validated(user_data, validation)
    }

    /// Carries a creation on from the validation of its request, given what
    /// hashing the password gave.
    pub fn create_validated(
        &self,
        data: CreateUser,
        validation: Result<(), ValidationErrors>,
        hashed: Result<String, HashError>,
    ) -> (step: Step)
        ensures
            step@ == create_validated(data@, validation_view(validation), hashed_view(hashed)),
    {
        match validation {
            Err(errors) => Step::fail(UsersServiceError::from(errors)),
            Ok(()) => ask(self.storage.create_with(data, hashed), Pending::Create),
        }
    }

    /// Starts a creation. The password is hashed with a random salt: the
    /// row that is inserted holds some hash that accepts the password.
    pub fn create(&self, data: CreateUser) -> (step: Step)
        ensures
            exists|hashed: Result<Seq<char>, Seq<char>>|
                hashes(hashed, data@.password) && step@ == #[trigger] create_start(data@, hashed),
    {
        let validation = data.validate();
        let hashed = match &validation {
            Ok(()) => hash_password(data.password.as_str()),
            Err(_) => Err(HashError { reason: String::new() }),
        };
        let ghost witness = hashed_view(hashed);
        let step = self.create_validated(data, validation, hashed);
        assert(step@ == create_start(data@, witness));
        step
    }

    /// Starts a lookup by address.
    pub fn get_by_email(&self, email: &str) -> (step: Step)
        ensures
            step@ == get_by_email_start(email@),
    {
        Step::Ask { query: self.storage.get_by_email(email), pending: Pending::Fetch }
    }

    /// Carries a lookup by identifier on from the reading of the identifier.
    pub fn get_by_id_parsed(&self, parsed: Option<UserId>) -> (step: Step)
        ensures
            step@ == get_by_id_parsed(parsed),
    {
        match parsed {
            Some(id) => Step::Ask { query: self.storage.get_by_id(id), pending: Pending::Fetch },
            None => reject_id(),
        }
    }

    /// Starts a lookup by identifier.
    pub fn get_by_id(&self, id: &str) -> (step: Step)
        ensures
            step@ == get_by_id_start(id@),
    {
        self.get_by_id_parsed(UserId::parse_str(id))
    }

    /// Starts a listing of the page `page`, counted from one, with
    /// `per_page` users on a page.
    pub fn list(&self, page: u32, per_page: u32, search_query: Option<String>) -> (step: Step)
        ensures
            step@ == list_start(page, per_page, search_query.deep_view()),
    {
        if page == 0 {
            return Step::fail(
                UsersServiceError::WrongCredentials(
                    String::from_str("Page must be greater than zero"),
                ),
            );
        }
        let before: u64 = (page - 1) as u64;
        let limit: i64 = per_page as i64;
        assert(0 <= before * per_page <= 0xffff_ffff * 0xffff_ffff) by (nonlinear_arith)
            requires
                0 <= before <= 0xffff_ffff,
                0 <= per_page <= 0xffff_ffff,
        ;
        let skipped: u64 = before * (per_page as u64);
        if skipped > i64::MAX as u64 {
            return Step::fail(UsersServiceError::NotFound);
        }
        let offset: i64 = skipped as i64;
        let filter = UserSearch { search: search_query, limit: Some(limit), offset: Some(offset) };
        Step::Ask {
            query: self.storage.list_users(filter),
            pending: Pending::List { limit, offset },
        }
    }

    /// Carries an update on from the reading of the identifier.
    pub fn update_parsed(
        &self,
        parsed: Option<UserId>,
        data: UpdateUser,
        old_password: Option<String>,
    ) -> (step: Step)
        ensures
            step@ == update_parsed(parsed, data@, old_password.deep_view()),
    {
        match parsed {
            Some(id) => Step::Ask {
                query: self.storage.get_by_id(id),
                pending: Pending::UpdateUser { data, old_password },
            },
            None => reject_id(),
        }
    }

    /// Starts an update.
    pub fn update(
        &self,
        user_id: &str,
        data: UpdateUser,
        old_password: Option<String>,
    ) -> (step: Step)
        ensures
            step@ == update_start(user_id@, data@, old_password.deep_view()),
    {
        self.update_parsed(UserId::parse_str(user_id), data, old_password)
    }

    /// Carries a deletion on from the reading of the identifier.
    pub fn delete_parsed(&self, parsed: Option<UserId>) -> (step: Step)
        ensures
            step@ == delete_parsed(parsed),
    {
        match parsed {
            Some(id) => Step::Ask { query: self.storage.delete(id), pending: Pending::Delete },
            None => reject_id(),
        }
    }

    /// Starts a deletion.
    pub fn delete(&self, id: &str) -> (step: Step)
        ensures
            step@ == delete_start(id@),
    {
        self.delete_parsed(UserId::parse_str(id))
    }

    /// Starts a check of whether a name is taken.
    pub fn check_username_exists(&self, username: &str) -> (step: Step)
        ensures
            step@ == check_username_start(username@),
    {
        Step::Ask {
            query: self.storage.get_by_username(username),
            pending: Pending::CheckUsername,
        }
    }

    fn sign_in_found(&self, credentials: SignInRequest, reply: Reply) -> (step: Step)
        ensures
            step@ == after_sign_in_lookup(credentials@, reply@),
    {
        match reply {
            Reply::Failed { reason } => Step::fail(UsersServiceError::DatabaseError(reason)),
            Reply::User { user: None } => reject_credentials(),
            Reply::User { user: Some(user) } => {
                let query = self.storage.verify_user(credentials.email.as_str());
                Step::Ask {
                    query,
                    pending: Pending::SignInHash { user, password: credentials.password },
                }
            },
            _ => Step::reject_reply(),
        }
    }

    /// Ends an operation that issues a token for `user`, given what minting
    /// the token gave.
    pub fn session_opened(
        &self,
        user: User,
        token: Result<String, UsersServiceError>,
        registered: bool,
    ) -> (step: Step)
        ensures
            step@ == session_opened(user@, token_view(token), registered),
    {
        match token {
            Ok(token) => if registered {
                Step::succeed(Outcome::SignedUp(SignUpResponse { user, token }))
            } else {
                Step::succeed(Outcome::SignedIn(SignInResponse { user, token }))
            },
            Err(e) => Step::fail(e),
        }
    }

    fn open_session(&self, user: User, now: i64, registered: bool) -> (step: Step)
        ensures
            step@ == session_step(self.signing_secret(), user@, now, registered),
    {
        let token = mint_at(self.secret.as_str(), &user, now);
        self.session_opened(user, token, registered)
    }

    /// Carries a sign-in on from the verdict of the stored hash on the
    /// password, as of the instant `now`.
    pub fn sign_in_judged(
        &self,
        user: User,
        verdict: Result<bool, StorageError>,
        now: i64,
    ) -> (step: Step)
        ensures
            step@ == judged(
                checked_view(verdict),
                invalid_credentials(),
                session_step(self.signing_secret(), user@, now, false),
            ),
    {
        match verdict {
            Err(e) => Step::fail(UsersServiceError::VerificationError(e.to_string())),
            Ok(false) => reject_credentials(),
            Ok(true) => self.open_session(user, now, false),
        }
    }

    fn sign_in_checked(&self, user: User, password: String, reply: Reply, now: i64) -> (step: Step)
        ensures
            step@ == after_sign_in_hash(self.signing_secret(), user@, password@, reply@, now),
    {
        match reply {
            Reply::Failed { reason } => Step::fail(UsersServiceError::VerificationError(reason)),
            Reply::PasswordHash { hash } => {
                let verdict = self.storage.check_password(hash, password.as_str());
                self.sign_in_judged(user, verdict, now)
            },
            _ => Step::reject_reply(),
        }
    }

    fn sign_up_looked_up(
        &self,
        data: SignUpRequest,
        reply: Reply,
        hashed: Result<String, HashError>,
    ) -> (step: Step)
        ensures
            step@ == after_sign_up_lookup(data@, reply@, hashed_view(hashed)),
    {
        match reply {
            Reply::User { user: Some(_) } => Step::fail(
                UsersServiceError::WrongCredentials(String::from_str("Email already exists")),
            ),
            Reply::User { user: None } | Reply::Failed { .. } => {
                let create_user = CreateUser {
                    username: data.username,
                    email: data.email,
                    password: data.password,
                    first_name: data.first_name,
                    last_name: data.last_name,
                    bio: data.bio,
                };
                ask(self.storage.create_with(create_user, hashed), Pending::SignUpInsert)
            },
            _ => Step::reject_reply(),
        }
    }

    fn sign_up_inserted(&self, reply: Reply, now: i64) -> (step: Step)
        ensures
            step@ == after_sign_up_insert(self.signing_secret(), reply@, now),
    {
        match reply {
            Reply::Failed { reason } => Step::fail(UsersServiceError::DatabaseError(reason)),
            Reply::User { user: Some(user) } => self.open_session(user, now, true),
            _ => Step::reject_reply(),
        }
    }

    fn created(&self, reply: Reply) -> (step: Step)
        ensures
            step@ == after_create(reply@),
    {
        match reply {
            Reply::Failed { reason } => Step::fail(UsersServiceError::DatabaseError(reason)),
            Reply::User { user: Some(user) } => Step::succeed(Outcome::User(user)),
            _ => Step::reject_reply(),
        }
    }

    fn fetched(&self, reply: Reply) -> (step: Step)
        ensures
            step@ == after_fetch(reply@),
    {
        match reply {
            Reply::Failed { reason } => Step::fail(UsersServiceError::DatabaseError(reason)),
            Reply::User { user: Some(user) } => Step::succeed(Outcome::User(user)),
            Reply::User { user: None } => Step::fail(UsersServiceError::NotFound),
            _ => Step::reject_reply(),
        }
    }

    fn listed(&self, limit: i64, offset: i64, reply: Reply) -> (step: Step)
        ensures
            step@ == after_list(limit, offset, reply@),
    {
        match reply {
            Reply::Failed { reason } => Step::fail(UsersServiceError::DatabaseError(reason)),
            Reply::Page { total_count, users } => {
                if users.len() == 0 {
                    Step::fail(UsersServiceError::NotFound)
                } else {
                    Step::succeed(
                        Outcome::Users(self.storage.page(total_count, users, limit, offset)),
                    )
                }
            },
            _ => Step::reject_reply(),
        }
    }

    fn update_looked_up(
        &self,
        data: UpdateUser,
        old_password: Option<String>,
        reply: Reply,
        hashed: Result<String, HashError>,
    ) -> (step: Step)
        ensures
            step@ == after_update_lookup(
                data@,
                old_password.deep_view(),
                reply@,
                hashed_view(hashed),
            ),
    {
        match reply {
            Reply::Failed { reason } => Step::fail(UsersServiceError::DatabaseError(reason)),
            Reply::User { user: None } => Step::fail(UsersServiceError::NotFound),
            Reply::User { user: Some(existing_user) } => {
                if data.password.is_some() {
                    match old_password {
                        Some(old) => {
                            let query = self.storage.verify_user(existing_user.email.as_str());
                            Step::Ask {
                                query,
                                pending: Pending::UpdateHash {
                                    user: existing_user,
                                    data,
                                    old_password: old,
                                },
                            }
                        },
                        None => Step::fail(
                            UsersServiceError::WrongCredentials(
                                String::from_str("To change password please provide old password"),
                            ),
                        ),
                    }
                } else {
                    ask(
                        self.storage.update_with(existing_user.id, data, hashed),
                        Pending::Fetch,
                    )
                }
            },
            _ => Step::reject_reply(),
        }
    }

    /// Carries an update on from the verdict of the stored hash on the
    /// current password, given what hashing the new password gave.
    pub fn update_judged(
        &self,
        user: User,
        data: UpdateUser,
        verdict: Result<bool, StorageError>,
        hashed: Result<String, HashError>,
    ) -> (step: Step)
        ensures
            step@ == judged(
                checked_view(verdict),
                wrong_old_password(),
                write_step(user@.id, data@, hashed_view(hashed)),
            ),
    {
        match verdict {
            Err(e) => Step::fail(UsersServiceError::VerificationError(e.to_string())),
            Ok(false) => Step::fail(
                UsersServiceError::WrongCredentials(String::from_str("Wrong old password")),
            ),
            Ok(true) => ask(self.storage.update_with(user.id, data, hashed), Pending::Fetch),
        }
    }

    fn update_checked(
        &self,
        user: User,
        data: UpdateUser,
        old_password: String,
        reply: Reply,
        hashed: Result<String, HashError>,
    ) -> (step: Step)
        ensures
            step@ == after_update_hash(
                user@,
                data@,
                old_password@,
                reply@,
                hashed_view(hashed),
            ),
    {
        match reply {
            Reply::Failed { reason } => Step::fail(UsersServiceError::VerificationError(reason)),
            Reply::PasswordHash { hash } => {
                let verdict = self.storage.check_password(hash, old_password.as_str());
                self.update_judged(user, data, verdict, hashed)
            },
            _ => Step::reject_reply(),
        }
    }

    fn deleted(&self, reply: Reply) -> (step: Step)
        ensures
            step@ == after_delete(reply@),
    {
        match reply {
            Reply::Failed { reason } => Step::fail(UsersServiceError::DatabaseError(reason)),
            Reply::Deleted { id: Some(id) } => Step::succeed(Outcome::Deleted(id)),
            Reply::Deleted { id: None } => Step::fail(UsersServiceError::NotFound),
            _ => Step::reject_reply(),
        }
    }

    fn username_checked(&self, reply: Reply) -> (step: Step)
        ensures
            step@ == after_check_username(reply@),
    {
        match reply {
            Reply::Failed { reason } => Step::fail(UsersServiceError::DatabaseError(reason)),
            Reply::User { user } => Step::succeed(Outcome::UsernameExists(user.is_some())),
            _ => Step::reject_reply(),
        }
    }

    /// Carries on the operation that waits at `pending` with the answer
    /// `reply`, as of the instant `now`, with `hashed` as what hashing the
    /// password that the step stores gave.
    pub fn resume_with(
        &self,
        pending: Pending,
        reply: Reply,
        now: i64,
        hashed: Result<String, HashError>,
    ) -> (step: Step)
        ensures
            step@ == next_step(self.signing_secret(), pending@, reply@, now, hashed_view(hashed)),
    {
        match pending {
            Pending::SignInUser { credentials } => self.sign_in_found(credentials, reply),
            Pending::SignInHash { user, password } => self.sign_in_checked(
                user,
                password,
                reply,
                now,
            ),
            Pending::SignUpUser { data } => self.sign_up_looked_up(data, reply, hashed),
            Pending::SignUpInsert => self.sign_up_inserted(reply, now),
            Pending::Create => self.created(reply),
            Pending::Fetch => self.fetched(reply),
            Pending::List { limit, offset } => self.listed(limit, offset, reply),
            Pending::UpdateUser { data, old_password } => self.update_looked_up(
                data,
                old_password,
                reply,
                hashed,
            ),
            Pending::UpdateHash { user, data, old_password } => self.update_checked(
                user,
                data,
                old_password,
                reply,
                hashed,
            ),
            Pending::Delete => self.deleted(reply),
            Pending::CheckUsername => self.username_checked(reply),
        }
    }

    /// Hashes the password that the step after `reply` may store, and no
    /// other: where the step stores none, nothing is hashed and the result is
    /// a failure without a reason, which the step does not look at.
    fn hash_for(&self, pending: &Pending, reply: &Reply) -> (hashed: Result<String, HashError>)
        ensures
            password_to_store(pending@, reply@) matches Some(password) ==> hashes(
                hashed_view(hashed),
                password,
            ),
            password_to_store(pending@, reply@) is None ==> hashed_view(hashed) == Err::<
                Seq<char>,
                Seq<char>,
            >(Seq::empty()),
    {
        match password_to_hash(pending, reply) {
            Some(password) => hash_password(password),
            None => Err(HashError { reason: String::new() }),
        }
    }

    /// Carries on the operation that waits at `pending` with the answer
    /// `reply`. The step is the one that [`UsersService::resume_with`] gives
    /// for the instant that the clock shows, which is not before the epoch,
    /// and for some hash that accepts the password which the step stores,
    /// if it stores one.
    pub fn resume(&self, pending: Pending, reply: Reply) -> (step: Step)
        ensures
            exists|at: i64, hashed: Result<Seq<char>, Seq<char>>|
                0 <= at && (password_to_store(pending@, reply@) matches Some(password)
                    ==> hashes(hashed, password)) && step@ == #[trigger] next_step(
                    self.signing_secret(),
                    pending@,
                    reply@,
                    at,
                    hashed,
                ),
    {
        let at = now().secs;
        let hashed = self.hash_for(&pending, &reply);
        let ghost witness = hashed_view(hashed);
        let step = self.resume_with(pending, reply, at, hashed);
        assert(0 <= at && step@ == next_step(
            self.signing_secret(),
            pending@,
            reply@,
            at,
            witness,
        ));
        step
    }
}

} // verus!
