//! What holds of the service as a whole, whatever the store answers.

use vstd::prelude::*;
use crate::models::password::acceptable;
use crate::models::user::{
    account_errors, valid_accounts_pass, NewAccountView, SessionView, SignInRequestView, UserView,
};
use crate::services::errors::{rejection, ServiceErrorView};
use crate::services::protocol::{failed, succeeded, OutcomeView, PendingView, StepView};
use crate::services::users_service::{
    after_list, create_start, get_by_email_start, invalid_credentials, list_start, next_step,
    page_offset, sign_in_start, sign_up_start,
};
use crate::storage::hashing::{hashes, verification};
use crate::storage::users_storage::{
    email_key, insertion, new_user_row, page_of, stored_verdict, QueryView, ReplyView,
    StorageErrorView,
};
use crate::text::lowercased;
use crate::validation::{email_errors, email_well_formed};

verus! {

/// A request is checked before the store is asked: a sign-in goes on to
/// the store exactly for a well-formed address, a registration and a
/// creation only for a well-formed address and an acceptable password. Any
/// other request ends at once, with the error made of what the checks found.
pub proof fn only_valid_requests_reach_the_store(
    credentials: SignInRequestView,
    data: NewAccountView,
    hashed: Result<Seq<char>, Seq<char>>,
)
    ensures
        sign_in_start(credentials) is Ask <==> email_well_formed(credentials.email),
        sign_up_start(data) is Ask <==> email_well_formed(data.email) && acceptable(data.password),
        create_start(data, hashed) is Ask ==> email_well_formed(data.email) && acceptable(
            data.password,
        ),
        !email_well_formed(credentials.email) ==> sign_in_start(credentials) == failed(
            rejection(email_errors(credentials.email)),
        ),
        !(email_well_formed(data.email) && acceptable(data.password)) ==> sign_up_start(data)
            == failed(rejection(account_errors(data.email, data.password))) && create_start(
            data,
            hashed,
        ) == sign_up_start(data),
{
    valid_accounts_pass(data.email, data.password);
}

/// The number of answers of the store that an operation waiting at
/// `pending` may still need.
pub open spec fn answers_needed(pending: PendingView) -> nat {
    match pending {
        PendingView::UpdateUser { .. } => 3,
        PendingView::SignInUser { .. } => 2,
        PendingView::SignUpUser { .. } => 2,
        PendingView::UpdateHash { .. } => 2,
        _ => 1,
    }
}

/// Every operation ends: an answer of the store either ends the operation
/// or leaves it waiting where it needs fewer answers than before. No
/// operation needs more than three answers.
pub proof fn operations_end(
    secret: Seq<char>,
    pending: PendingView,
    reply: ReplyView,
    now: i64,
    hashed: Result<Seq<char>, Seq<char>>,
)
    ensures
        next_step(secret, pending, reply, now, hashed).waiting() matches Some(next)
            ==> answers_needed(next) < answers_needed(pending),
        1 <= answers_needed(pending) <= 3,
{
}

/// A hash that came out of hashing a password verifies against that
/// password: checking the password against it gives "yes", and no error.
pub proof fn fresh_hash_verifies(hashed: Result<Seq<char>, Seq<char>>, password: Seq<char>)
    requires
        hashes(hashed, password),
        hashed is Ok,
    ensures
        verification(hashed->Ok_0, password) == Ok::<bool, Seq<char>>(true),
        stored_verdict(Some(hashed->Ok_0), password) == Ok::<bool, StorageErrorView>(true),
{
}

/// A sign-in with an address that no user has and a sign-in with a
/// password that the stored hash does not accept are answered alike: with
/// the one error that says that address or password is wrong.
pub proof fn sign_in_failures_are_alike(
    secret: Seq<char>,
    credentials: SignInRequestView,
    user: UserView,
    hash: Option<Seq<char>>,
    now: i64,
    hashed: Result<Seq<char>, Seq<char>>,
)
    requires
        stored_verdict(hash, credentials.password) == Ok::<bool, StorageErrorView>(false),
    ensures
        next_step(
            secret,
            PendingView::SignInUser { credentials },
            ReplyView::User { user: None },
            now,
            hashed,
        ) == failed(invalid_credentials()),
        next_step(
            secret,
            PendingView::SignInHash { user, password: credentials.password },
            ReplyView::PasswordHash { hash },
            now,
            hashed,
        ) == failed(invalid_credentials()),
{
}

/// A sign-in succeeds only at the step that holds the stored hash, and only
/// where that hash accepts the password that was given. The user it signs in
/// is the one that was found under the address.
pub proof fn session_needs_accepted_password(
    secret: Seq<char>,
    pending: PendingView,
    reply: ReplyView,
    now: i64,
    hashed: Result<Seq<char>, Seq<char>>,
    session: SessionView,
)
    requires
        next_step(secret, pending, reply, now, hashed) == succeeded(OutcomeView::SignedIn(session)),
    ensures
        (pending matches PendingView::SignInHash { user, password } && reply
            matches ReplyView::PasswordHash { hash } && stored_verdict(hash, password)
            == Ok::<bool, StorageErrorView>(true) && session.user == user),
{
}

/// The password hash that a step writes to an existing user, if it writes
/// one.
pub open spec fn written_hash(step: StepView) -> Option<Seq<char>> {
    match step.asked() {
        Some(QueryView::UpdateUser { changes, .. }) => changes.password_hash,
        _ => None,
    }
}

/// A new password is written only at the step that holds the stored hash,
/// and only where that hash accepts the current password that the caller
/// gave. What is written is never the password, but what hashing it gave.
pub proof fn password_change_needs_accepted_password(
    secret: Seq<char>,
    pending: PendingView,
    reply: ReplyView,
    now: i64,
    hashed: Result<Seq<char>, Seq<char>>,
)
    requires
        written_hash(next_step(secret, pending, reply, now, hashed)) is Some,
    ensures
        (pending matches PendingView::UpdateHash { old_password, .. } && reply
            matches ReplyView::PasswordHash { hash } && stored_verdict(hash, old_password)
            == Ok::<bool, StorageErrorView>(true)),
        hashed == Ok::<Seq<char>, Seq<char>>(
            written_hash(next_step(secret, pending, reply, now, hashed))->Some_0,
        ),
{
}

/// Addresses that differ only in case are one address. Where `email` has
/// the lower-case form of the address that `data` registers, the row that
/// is inserted for `data` holds the very key that a lookup of `email`
/// searches for, be it a plain lookup, a sign-in or a registration.
pub proof fn email_lookups_ignore_case(data: NewAccountView, hash: Seq<char>, email: Seq<char>)
    requires
        lowercased(email) == lowercased(data.email),
    ensures
        insertion(data, Ok(hash)) == Ok::<QueryView, StorageErrorView>(
            QueryView::InsertUser { row: new_user_row(data, hash) },
        ),
        new_user_row(data, hash).email == email_key(email),
        get_by_email_start(email).asked() == Some(
            QueryView::UserByEmail { email: new_user_row(data, hash).email },
        ),
        get_by_email_start(email) == get_by_email_start(data.email),
        forall|password: Seq<char>|
            email_well_formed(email) ==> (#[trigger] sign_in_start(
                SignInRequestView { email, password },
            )).asked() == Some(
                QueryView::UserByEmail { email: new_user_row(data, hash).email },
            ),
{
}

/// The positions, counted from zero in the whole listing, of the users that
/// the page `page` asks for.
pub open spec fn page_positions(page: u32, per_page: u32) -> Set<int> {
    Set::new(
        |i: int| page_offset(page, per_page) <= i < page_offset(page, per_page) + per_page,
    )
}

/// Pages are counted from one, the first page starts at the first user, and
/// each page starts where the page before it ends.
pub proof fn pages_adjoin(page: u32, per_page: u32)
    requires
        1 <= page < u32::MAX,
    ensures
        page_offset(1, per_page) == 0,
        page_offset((page + 1) as u32, per_page) == page_offset(page, per_page) + per_page,
{
    assert(page * per_page == (page - 1) * per_page + per_page) by (nonlinear_arith);
}

/// Two different pages of one size ask for windows that share no position.
pub proof fn pages_are_disjoint(p: u32, q: u32, per_page: u32)
    requires
        1 <= p,
        1 <= q,
        p != q,
    ensures
        page_positions(p, per_page).disjoint(page_positions(q, per_page)),
{
    if p < q {
        assert((q - 1) * per_page >= (p - 1) * per_page + per_page) by (nonlinear_arith)
            requires
                1 <= p < q,
                0 <= per_page,
        ;
    } else {
        assert((p - 1) * per_page >= (q - 1) * per_page + per_page) by (nonlinear_arith)
            requires
                1 <= q < p,
                0 <= per_page,
        ;
    }
}

/// The users that a listing of `all`, the users that match in their order,
/// returns for the window of `limit` users after the first `offset`.
pub open spec fn window(all: Seq<UserView>, limit: int, offset: int) -> Seq<UserView> {
    let start = if offset < 0 {
        0
    } else if offset > all.len() {
        all.len() as int
    } else {
        offset
    };
    let end = if offset + limit < start {
        start
    } else if offset + limit > all.len() {
        all.len() as int
    } else {
        offset + limit
    };
    all.subrange(start, end)
}

/// The users on the page `page` of a listing of `all`.
pub open spec fn page_users(all: Seq<UserView>, page: u32, per_page: u32) -> Seq<UserView> {
    window(all, per_page as int, page_offset(page, per_page))
}

/// Over a listing that names no user twice, two different pages of one size
/// have no user in common.
pub proof fn pages_share_no_user(all: Seq<UserView>, p: u32, q: u32, per_page: u32)
    requires
        1 <= p,
        1 <= q,
        p != q,
        all.no_duplicates(),
    ensures
        forall|u: UserView|
            !(page_users(all, p, per_page).contains(u) && page_users(all, q, per_page).contains(
                u,
            )),
{
    pages_are_disjoint(p, q, per_page);
    let first = page_users(all, p, per_page);
    let second = page_users(all, q, per_page);
    assert(0 <= (p - 1) * per_page) by (nonlinear_arith)
        requires
            1 <= p,
            0 <= per_page,
    ;
    assert(0 <= (q - 1) * per_page) by (nonlinear_arith)
        requires
            1 <= q,
            0 <= per_page,
    ;
    assert forall|u: UserView| !(first.contains(u) && second.contains(u)) by {
        if first.contains(u) && second.contains(u) {
            let i = choose|i: int| 0 <= i < first.len() && first[i] == u;
            let j = choose|j: int| 0 <= j < second.len() && second[j] == u;
            let at_i = page_offset(p, per_page) + i;
            let at_j = page_offset(q, per_page) + j;
            assert(all[at_i] == u);
            assert(all[at_j] == u);
            assert(page_positions(p, per_page).contains(at_i));
            assert(page_positions(q, per_page).contains(at_j));
            assert(at_i != at_j);
        }
    }
}

/// A page that holds users is answered as it came: the users, the count of
/// all matching users as the store gave it, and the window that was asked
/// for. So the pages of one listing agree on the count.
pub proof fn page_reports_the_count(
    page: u32,
    per_page: u32,
    total_count: i64,
    users: Seq<UserView>,
)
    requires
        page >= 1,
        users.len() > 0,
        page_offset(page, per_page) <= i64::MAX,
    ensures
        after_list(
            per_page as i64,
            page_offset(page, per_page) as i64,
            ReplyView::Page { total_count: Some(total_count), users },
        ) == succeeded(
            OutcomeView::Users(
                page_of(
                    Some(total_count),
                    users,
                    per_page as i64,
                    page_offset(page, per_page) as i64,
                ),
            ),
        ),
        page_of(
            Some(total_count),
            users,
            per_page as i64,
            page_offset(page, per_page) as i64,
        ).total_count == total_count,
{
}

/// Page zero is turned away before the store is asked, and a page on which
/// the store finds no user is reported as "not found".
pub proof fn page_zero_and_empty_page(
    per_page: u32,
    search_query: Option<Seq<char>>,
    limit: i64,
    offset: i64,
    total_count: Option<i64>,
)
    ensures
        list_start(0, per_page, search_query) == failed(
            ServiceErrorView::WrongCredentials("Page must be greater than zero"@),
        ),
        after_list(limit, offset, ReplyView::Page { total_count, users: Seq::empty() }) == failed(
            ServiceErrorView::NotFound,
        ),
{
}

} // verus!
