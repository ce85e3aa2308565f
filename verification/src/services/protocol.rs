//! How the service and the store talk. An operation runs in steps: each
//! step either asks for one statement to be run and says where the operation
//! waits meanwhile, or ends the operation with its result. Whoever holds the
//! connection runs the statement and hands the answer back.

use vstd::prelude::*;
use crate::models::user::{
    SessionView, SignInRequest, SignInRequestView, SignInResponse, SignUpRequest,
    SignUpResponse, NewAccountView, UpdateUser, UpdateUserView, User, UserId, UserListResponse,
    UserListView, UserView,
};
use crate::services::errors::{ServiceErrorView, UsersServiceError};
use crate::storage::users_storage::{Query, QueryView};

verus! {

/// Where an operation waits for the store, and what it keeps meanwhile.
#[derive(Debug, Clone, PartialEq, Eq)]
pub enum Pending {
    /// A sign-in waits for the user with the given address.
    SignInUser { credentials: SignInRequest },
    /// A sign-in waits for the stored hash of the user it found.
    SignInHash { user: User, password: String },
    /// A registration waits to learn whether the address is taken.
    SignUpUser { data: SignUpRequest },
    /// A registration waits for the user it inserted.
    SignUpInsert,
    /// A creation waits for the user it inserted.
    Create,
    /// A lookup waits for its user.
    Fetch,
    /// A listing waits for its page of the given window.
    List { limit: i64, offset: i64 },
    /// An update waits for the user that is to be changed.
    UpdateUser { data: UpdateUser, old_password: Option<String> },
    /// An update that changes the password waits for the stored hash.
    UpdateHash { user: User, data: UpdateUser, old_password: String },
    /// A deletion waits for the identifier of what it deleted.
    Delete,
    /// A check of a name waits to learn whether a user has it.
    CheckUsername,
}

/// The mathematical content of a [`Pending`].
pub ghost enum PendingView {
    SignInUser { credentials: SignInRequestView },
    SignInHash { user: UserView, password: Seq<char> },
    SignUpUser { data: NewAccountView },
    SignUpInsert,
    Create,
    Fetch,
    List { limit: i64, offset: i64 },
    UpdateUser { data: UpdateUserView, old_password: Option<Seq<char>> },
    UpdateHash { user: UserView, data: UpdateUserView, old_password: Seq<char> },
    Delete,
    CheckUsername,
}

impl View for Pending {
    type V = PendingView;

    open spec fn view(&self) -> PendingView {
        match self {
            Pending::SignInUser { credentials } => PendingView::SignInUser {
                credentials: credentials@,
            },
            Pending::SignInHash { user, password } => PendingView::SignInHash {
                user: user@,
                password: password@,
            },
            Pending::SignUpUser { data } => PendingView::SignUpUser { data: data@ },
            Pending::SignUpInsert => PendingView::SignUpInsert,
            Pending::Create => PendingView::Create,
            Pending::Fetch => PendingView::Fetch,
            Pending::List { limit, offset } => PendingView::List {
                limit: *limit,
                offset: *offset,
            },
            Pending::UpdateUser { data, old_password } => PendingView::UpdateUser {
                data: data@,
                old_password: old_password.deep_view(),
            },
            Pending::UpdateHash { user, data, old_password } => PendingView::UpdateHash {
                user: user@,
                data: data@,
                old_password: old_password@,
            },
            Pending::Delete => PendingView::Delete,
            Pending::CheckUsername => PendingView::CheckUsername,
        }
    }
}

/// What an operation that succeeded gives.
#[derive(Debug, Clone, PartialEq, Eq)]
pub enum Outcome {
    SignedIn(SignInResponse),
    SignedUp(SignUpResponse),
    User(User),
    Users(UserListResponse),
    Deleted(UserId),
    UsernameExists(bool),
}

/// The mathematical content of an [`Outcome`].
pub ghost enum OutcomeView {
    SignedIn(SessionView),
    SignedUp(SessionView),
    User(UserView),
    Users(UserListView),
    Deleted(UserId),
    UsernameExists(bool),
}

impl View for Outcome {
    type V = OutcomeView;

    open spec fn view(&self) -> OutcomeView {
        match self {
            Outcome::SignedIn(session) => OutcomeView::SignedIn(session@),
            Outcome::SignedUp(session) => OutcomeView::SignedUp(session@),
            Outcome::User(user) => OutcomeView::User(user@),
            Outcome::Users(page) => OutcomeView::Users(page@),
            Outcome::Deleted(id) => OutcomeView::Deleted(*id),
            Outcome::UsernameExists(exists) => OutcomeView::UsernameExists(*exists),
        }
    }
}

/// One step of an operation.
#[derive(Debug, PartialEq, Eq)]
pub enum Step {
    /// Run `query`, then resume at `pending` with the answer.
    Ask { query: Query, pending: Pending },
    /// The operation is over.
    Done { result: Result<Outcome, UsersServiceError> },
}

/// The mathematical content of a [`Step`].
pub ghost enum StepView {
    Ask { query: QueryView, pending: PendingView },
    Done { result: Result<OutcomeView, ServiceErrorView> },
}

/// The mathematical content of the result of an operation.
pub open spec fn result_view(result: Result<Outcome, UsersServiceError>) -> Result<
    OutcomeView,
    ServiceErrorView,
> {
    match result {
        Ok(outcome) => Ok(outcome@),
        Err(e) => Err(e@),
    }
}

impl View for Step {
    type V = StepView;

    open spec fn view(&self) -> StepView {
        match self {
            Step::Ask { query, pending } => StepView::Ask { query: query@, pending: pending@ },
            Step::Done { result } => StepView::Done { result: result_view(*result) },
        }
    }
}

impl StepView {
    /// The statement that the step asks for, if it asks for one.
    pub open spec fn asked(self) -> Option<QueryView> {
        match self {
            StepView::Ask { query, .. } => Some(query),
            StepView::Done { .. } => None,
        }
    }

    /// Where the operation waits after the step, if it goes on.
    pub open spec fn waiting(self) -> Option<PendingView> {
        match self {
            StepView::Ask { pending, .. } => Some(pending),
            StepView::Done { .. } => None,
        }
    }
}

/// The step that ends an operation with `error`.
pub open spec fn failed(error: ServiceErrorView) -> StepView {
    StepView::Done { result: Err(error) }
}

/// The step that ends an operation with `outcome`.
pub open spec fn succeeded(outcome: OutcomeView) -> StepView {
    StepView::Done { result: Ok(outcome) }
}

/// The step that ends an operation because the answer of the store is not
/// one to the statement that was asked.
pub open spec fn unexpected() -> StepView {
    failed(ServiceErrorView::DatabaseError("unexpected reply from the store"@))
}

impl Step {
    /// The step that ends an operation with `error`.
    pub fn fail(error: UsersServiceError) -> (step: Self)
        ensures
            step@ == failed(error@),
    {
        Step::Done { result: Err(error) }
    }

    /// The step that ends an operation with `outcome`.
    pub fn succeed(outcome: Outcome) -> (step: Self)
        ensures
            step@ == succeeded(outcome@),
    {
        Step::Done { result: Ok(outcome) }
    }

    /// The step that ends an operation on an answer that does not fit.
    pub fn reject_reply() -> (step: Self)
        ensures
            step@ == unexpected(),
    {
        Step::Done {
            result: Err(
                UsersServiceError::DatabaseError(
                    String::from_str("unexpected reply from the store"),
                ),
            ),
        }
    }
}

} // verus!
