use user_accounts::models::{
    CreateUser, SignInRequest, SignUpRequest, Timestamp, UpdateUser, User, UserId,
};
use user_accounts::services::users_service::password_to_hash;
use user_accounts::services::{Outcome, Pending, Step, UsersService, UsersServiceError};
use user_accounts::storage::{
    hash_password, verify_password, HashError, Query, Reply, StorageError, UsersStorage,
};
use user_accounts::validation::{ValidationError, ValidationErrors};

const GENERIC: &str = "Invalid email or password";

struct Row {
    user: User,
    password_hash: String,
}

/// A table of users in memory, newest first, that answers the statements as
/// a database would.
struct Table {
    rows: Vec<Row>,
    next_id: u128,
}

fn table() -> Table {
    Table {
        rows: Vec::new(),
        next_id: 1,
    }
}

fn answer(table: &mut Table, query: Query) -> Reply {
    match query {
        Query::InsertUser { row } => {
            if table
                .rows
                .iter()
                .any(|r| r.user.email == row.email || r.user.username == row.username)
            {
                return Reply::Failed {
                    reason: "duplicate key value violates unique constraint".to_string(),
                };
            }
            let user = User {
                id: UserId {
                    value: table.next_id,
                },
                username: row.username,
                email: row.email,
                first_name: row.first_name,
                last_name: row.last_name,
                bio: row.bio,
                created_at: Timestamp {
                    secs: 1_700_000_000 + table.next_id as i64,
                    nanos: 0,
                },
            };
            table.next_id += 1;
            table.rows.insert(
                0,
                Row {
                    user: user.clone(),
                    password_hash: row.password_hash,
                },
            );
            Reply::User { user: Some(user) }
        }
        Query::PasswordHashByEmail { email } => Reply::PasswordHash {
            hash: table
                .rows
                .iter()
                .find(|r| r.user.email == email)
                .map(|r| r.password_hash.clone()),
        },
        Query::UserByEmail { email } => Reply::User {
            user: table
                .rows
                .iter()
                .find(|r| r.user.email == email)
                .map(|r| r.user.clone()),
        },
        Query::UserByUsername { username } => Reply::User {
            user: table
                .rows
                .iter()
                .find(|r| r.user.username == username)
                .map(|r| r.user.clone()),
        },
        Query::UserById { id } => Reply::User {
            user: table
                .rows
                .iter()
                .find(|r| r.user.id == id)
                .map(|r| r.user.clone()),
        },
        Query::ListUsers {
            search,
            limit,
            offset,
        } => {
            let term = search.map(|s| s.to_lowercase());
            let matching: Vec<User> = table
                .rows
                .iter()
                .filter(|r| match &term {
                    Some(t) => {
                        r.user.username.to_lowercase().contains(t)
                            || r.user.email.to_lowercase().contains(t)
                    }
                    None => true,
                })
                .map(|r| r.user.clone())
                .collect();
            Reply::Page {
                total_count: Some(matching.len() as i64),
                users: matching
                    .into_iter()
                    .skip(offset as usize)
                    .take(limit as usize)
                    .collect(),
            }
        }
        Query::UpdateUser { id, changes } => {
            let row = table.rows.iter_mut().find(|r| r.user.id == id);
            Reply::User {
                user: row.map(|r| {
                    if let Some(v) = changes.username {
                        r.user.username = v;
                    }
                    if let Some(v) = changes.email {
                        r.user.email = v;
                    }
                    if let Some(v) = changes.password_hash {
                        r.password_hash = v;
                    }
                    if let Some(v) = changes.first_name {
                        r.user.first_name = Some(v);
                    }
                    if let Some(v) = changes.last_name {
                        r.user.last_name = Some(v);
                    }
                    if let Some(v) = changes.bio {
                        r.user.bio = Some(v);
                    }
                    r.user.clone()
                }),
            }
        }
        Query::DeleteUser { id } => {
            let before = table.rows.len();
            table.rows.retain(|r| r.user.id != id);
            Reply::Deleted {
                id: if table.rows.len() < before {
                    Some(id)
                } else {
                    None
                },
            }
        }
    }
}

/// Runs an operation to its end against the table.
fn run(
    service: &UsersService,
    table: &mut Table,
    mut step: Step,
) -> Result<Outcome, UsersServiceError> {
    loop {
        match step {
            Step::Ask { query, pending } => {
                let reply = answer(table, query);
                step = service.resume(pending, reply);
            }
            Step::Done { result } => return result,
        }
    }
}

fn service() -> UsersService {
    UsersService::new(UsersStorage::new(), "your-secret-key".to_string())
}

fn registration(username: &str, email: &str) -> SignUpRequest {
    SignUpRequest {
        username: username.to_string(),
        email: email.to_string(),
        password: "Password123!".to_string(),
        first_name: Some("Test".to_string()),
        last_name: Some("User".to_string()),
        bio: None,
    }
}

fn credentials(email: &str, password: &str) -> SignInRequest {
    SignInRequest {
        email: email.to_string(),
        password: password.to_string(),
    }
}

fn no_hash() -> Result<String, HashError> {
    Err(HashError {
        reason: String::new(),
    })
}

fn five_users(service: &UsersService, table: &mut Table) {
    for i in 0..5 {
        let step = service.sign_up(registration(
            &format!("user{}", i),
            &format!("user{}@example.com", i),
        ));
        assert!(run(service, table, step).is_ok());
    }
}

#[test]
fn sign_up_then_sign_in() {
    let service = service();
    let mut table = table();
    let step = service.sign_up(registration("testuser", "Test@Example.COM"));
    let signed_up = match run(&service, &mut table, step) {
        Ok(Outcome::SignedUp(response)) => response,
        other => panic!("unexpected result: {:?}", other),
    };
    assert_eq!(signed_up.user.username, "testuser");
    assert_eq!(signed_up.user.email, "test@example.com");
    assert_eq!(signed_up.token.split('.').count(), 3);
    // The password is stored as a hash that accepts it.
    assert_eq!(
        verify_password(&table.rows[0].password_hash, "Password123!"),
        Ok(true)
    );

    let step = service.sign_in(credentials("test@example.com", "Password123!"));
    match run(&service, &mut table, step) {
        Ok(Outcome::SignedIn(response)) => {
            assert_eq!(response.user, signed_up.user);
            assert_eq!(response.token.split('.').count(), 3);
        }
        other => panic!("unexpected result: {:?}", other),
    }
}

#[test]
fn sign_in_finds_the_user_whatever_the_case_of_the_address() {
    let service = service();
    let mut table = table();
    let step = service.sign_up(registration("testuser", "Test@Example.COM"));
    assert!(run(&service, &mut table, step).is_ok());
    let step = service.sign_in(credentials("TEST@example.com", "Password123!"));
    assert!(matches!(
        run(&service, &mut table, step),
        Ok(Outcome::SignedIn(_))
    ));
    let step = service.get_by_email("test@EXAMPLE.com");
    match run(&service, &mut table, step) {
        Ok(Outcome::User(user)) => assert_eq!(user.email, "test@example.com"),
        other => panic!("unexpected result: {:?}", other),
    }
}

#[test]
fn unknown_address_and_wrong_password_get_the_same_answer() {
    let service = service();
    let mut table = table();
    let step = service.sign_up(registration("testuser", "test@example.com"));
    assert!(run(&service, &mut table, step).is_ok());

    let step = service.sign_in(credentials("nonexistent@example.com", "Password123!"));
    let unknown = run(&service, &mut table, step);
    let step = service.sign_in(credentials("test@example.com", "WrongPassword123!"));
    let wrong = run(&service, &mut table, step);

    assert_eq!(
        unknown,
        Err(UsersServiceError::WrongCredentials(GENERIC.to_string()))
    );
    assert_eq!(unknown, wrong);
}

#[test]
fn sign_in_with_a_malformed_address_asks_nothing() {
    let service = service();
    assert_eq!(
        service.sign_in(credentials("invalid-email", "Password123!")),
        Step::Done {
            result: Err(UsersServiceError::WrongCredentials(
                "email: Validation error: email".to_string()
            ))
        }
    );
}

#[test]
fn sign_in_steps_ask_for_user_then_for_hash() {
    let service = service();
    let request = credentials("Test@Example.COM", "Password123!");
    let step = service.sign_in(request.clone());
    assert_eq!(
        step,
        Step::Ask {
            query: Query::UserByEmail {
                email: "test@example.com".to_string()
            },
            pending: Pending::SignInUser {
                credentials: request.clone()
            },
        }
    );
    let user = User {
        id: UserId { value: 5 },
        username: "testuser".to_string(),
        email: "test@example.com".to_string(),
        first_name: None,
        last_name: None,
        bio: None,
        created_at: Timestamp {
            secs: 1_700_000_000,
            nanos: 0,
        },
    };
    let step = service.resume_with(
        Pending::SignInUser {
            credentials: request,
        },
        Reply::User {
            user: Some(user.clone()),
        },
        1_700_000_000,
        no_hash(),
    );
    assert_eq!(
        step,
        Step::Ask {
            query: Query::PasswordHashByEmail {
                email: "test@example.com".to_string()
            },
            pending: Pending::SignInHash {
                user: user.clone(),
                password: "Password123!".to_string()
            },
        }
    );
    let hash = hash_password("Password123!").unwrap();
    let step = service.resume_with(
        Pending::SignInHash {
            user: user.clone(),
            password: "Password123!".to_string(),
        },
        Reply::PasswordHash { hash: Some(hash) },
        1_700_000_000,
        no_hash(),
    );
    match step {
        Step::Done {
            result: Ok(Outcome::SignedIn(response)),
        } => {
            assert_eq!(response.user, user);
            assert_eq!(
                Ok(response.token),
                user_accounts::services::token::mint_at("your-secret-key", &user, 1_700_000_000)
            );
        }
        other => panic!("unexpected step: {:?}", other),
    }
}

#[test]
fn failures_of_the_store_are_sorted_by_the_step_they_hit() {
    let service = service();
    let request = credentials("test@example.com", "Password123!");
    let failed = Reply::Failed {
        reason: "connection refused".to_string(),
    };
    assert_eq!(
        service.resume(
            Pending::SignInUser {
                credentials: request
            },
            failed.clone()
        ),
        Step::Done {
            result: Err(UsersServiceError::DatabaseError(
                "connection refused".to_string()
            ))
        }
    );
    let pending = Pending::SignInHash {
        user: User::default(),
        password: "Password123!".to_string(),
    };
    assert_eq!(
        service.resume(pending.clone(), failed),
        Step::Done {
            result: Err(UsersServiceError::VerificationError(
                "connection refused".to_string()
            ))
        }
    );
    // A hash that is missing or cannot be read is an error of verification,
    // not a wrong password.
    let crashed = Step::Done {
        result: Err(UsersServiceError::VerificationError(
            "attempted to communicate with a crashed background worker".to_string(),
        )),
    };
    assert_eq!(
        service.resume(pending.clone(), Reply::PasswordHash { hash: None }),
        crashed
    );
    assert_eq!(
        service.resume(
            pending,
            Reply::PasswordHash {
                hash: Some("invalid_hash".to_string())
            }
        ),
        crashed
    );
}

#[test]
fn answer_that_does_not_fit_the_statement_is_an_error() {
    let service = service();
    let stray = Step::Done {
        result: Err(UsersServiceError::DatabaseError(
            "unexpected reply from the store".to_string(),
        )),
    };
    assert_eq!(
        service.resume(Pending::Fetch, Reply::Deleted { id: None }),
        stray
    );
    assert_eq!(
        service.resume(Pending::Delete, Reply::User { user: None }),
        stray
    );
    assert_eq!(
        service.resume(Pending::Create, Reply::User { user: None }),
        stray
    );
    assert_eq!(
        service.resume(
            Pending::List {
                limit: 2,
                offset: 0
            },
            Reply::PasswordHash { hash: None }
        ),
        stray
    );
}

#[test]
fn sign_up_rejects_an_address_that_is_taken() {
    let service = service();
    let mut table = table();
    let step = service.sign_up(registration("testuser", "test@example.com"));
    assert!(run(&service, &mut table, step).is_ok());
    let step = service.sign_up(registration("another", "TEST@EXAMPLE.COM"));
    assert_eq!(
        run(&service, &mut table, step),
        Err(UsersServiceError::WrongCredentials(
            "Email already exists".to_string()
        ))
    );
    assert_eq!(table.rows.len(), 1);
}

#[test]
fn sign_up_rejects_a_weak_password_with_the_broken_rules() {
    let service = service();
    let mut request = registration("testuser", "test@example.com");
    request.password = "weakpassword".to_string();
    assert_eq!(
        service.sign_up(request),
        Step::Done {
            result: Err(UsersServiceError::WrongCredentials(
                "password: Password requirements not met: uppercase letter required, digit required, special character required"
                    .to_string()
            ))
        }
    );
}

#[test]
fn sign_up_goes_on_when_the_lookup_fails() {
    let service = service();
    let request = registration("testuser", "Test@Example.COM");
    let step = service.resume_with(
        Pending::SignUpUser {
            data: request.clone(),
        },
        Reply::Failed {
            reason: "connection refused".to_string(),
        },
        1_700_000_000,
        Ok("$argon2id$stored".to_string()),
    );
    match step {
        Step::Ask {
            query: Query::InsertUser { row },
            pending: Pending::SignUpInsert,
        } => {
            assert_eq!(row.email, "test@example.com");
            assert_eq!(row.password_hash, "$argon2id$stored");
            assert_eq!(row.username, "testuser");
        }
        other => panic!("unexpected step: {:?}", other),
    }
    // Where the password cannot be hashed nothing is inserted.
    assert_eq!(
        service.resume_with(
            Pending::SignUpUser { data: request },
            Reply::User { user: None },
            1_700_000_000,
            no_hash(),
        ),
        Step::Done {
            result: Err(UsersServiceError::DatabaseError(
                "attempted to communicate with a crashed background worker".to_string()
            ))
        }
    );
}

#[test]
fn create_validates_then_inserts() {
    let service = service();
    let mut table = table();
    let data = CreateUser {
        username: "testuser".to_string(),
        email: "Test@Example.COM".to_string(),
        password: "Password123!".to_string(),
        first_name: None,
        last_name: None,
        bio: Some("Test user bio".to_string()),
    };
    let step = service.create(data.clone());
    match run(&service, &mut table, step) {
        Ok(Outcome::User(user)) => {
            assert_eq!(user.username, "testuser");
            assert_eq!(user.email, "test@example.com");
            assert_eq!(user.bio, Some("Test user bio".to_string()));
            assert_ne!(user.id, UserId::nil());
        }
        other => panic!("unexpected result: {:?}", other),
    }
    // The same account once more: the store refuses, the service reports it.
    let step = service.create(data.clone());
    assert_eq!(
        run(&service, &mut table, step),
        Err(UsersServiceError::DatabaseError(
            "duplicate key value violates unique constraint".to_string()
        ))
    );
    let mut invalid = data;
    invalid.email = "invalid-email".to_string();
    assert_eq!(
        service.create(invalid),
        Step::Done {
            result: Err(UsersServiceError::WrongCredentials(
                "email: Validation error: email".to_string()
            ))
        }
    );
}

#[test]
fn get_by_id_wants_a_uuid() {
    let service = service();
    let mut table = table();
    assert_eq!(
        service.get_by_id("not-a-uuid"),
        Step::Done {
            result: Err(UsersServiceError::WrongCredentials(
                "Wrong id format".to_string()
            ))
        }
    );
    let step = service.get_by_id("550e8400-e29b-41d4-a716-446655440000");
    assert_eq!(
        step,
        Step::Ask {
            query: Query::UserById {
                id: UserId {
                    value: 0x550e8400e29b41d4a716446655440000u128
                }
            },
            pending: Pending::Fetch,
        }
    );
    assert_eq!(
        run(&service, &mut table, step),
        Err(UsersServiceError::NotFound)
    );
}

#[test]
fn get_by_email_of_nobody_is_not_found() {
    let service = service();
    let mut table = table();
    let step = service.get_by_email("nonexistent@example.com");
    assert_eq!(
        run(&service, &mut table, step),
        Err(UsersServiceError::NotFound)
    );
}

#[test]
fn page_zero_is_rejected() {
    let service = service();
    assert_eq!(
        service.list(0, 2, None),
        Step::Done {
            result: Err(UsersServiceError::WrongCredentials(
                "Page must be greater than zero".to_string()
            ))
        }
    );
}

#[test]
fn first_page_of_no_records_is_not_found() {
    let service = service();
    let mut table = table();
    let step = service.list(1, 2, None);
    assert_eq!(
        run(&service, &mut table, step),
        Err(UsersServiceError::NotFound)
    );
}

#[test]
fn pages_start_at_page_minus_one_times_page_size() {
    let service = service();
    let window = |page: u32, per_page: u32| match service.list(page, per_page, None) {
        Step::Ask {
            query:
                Query::ListUsers {
                    search: None,
                    limit,
                    offset,
                },
            pending,
        } => {
            assert_eq!(pending, Pending::List { limit, offset });
            (limit, offset)
        }
        other => panic!("unexpected step: {:?}", other),
    };
    assert_eq!(window(1, 2), (2, 0));
    assert_eq!(window(2, 2), (2, 2));
    assert_eq!(window(3, 20), (20, 40));
    assert_eq!(window(7, 0), (0, 0));
    assert_eq!(window(u32::MAX, 1), (1, 4_294_967_294));
    assert_eq!(
        window(2_147_483_649, u32::MAX),
        (4_294_967_295, 9_223_372_034_707_292_160)
    );
}

#[test]
fn page_beyond_any_store_is_not_found() {
    let service = service();
    assert_eq!(
        service.list(u32::MAX, u32::MAX, None),
        Step::Done {
            result: Err(UsersServiceError::NotFound)
        }
    );
}

#[test]
fn two_pages_of_five_records_are_disjoint_and_agree_on_the_count() {
    let service = service();
    let mut table = table();
    five_users(&service, &mut table);

    let page = |table: &mut Table, n: u32| {
        let step = service.list(n, 2, None);
        match run(&service, table, step) {
            Ok(Outcome::Users(page)) => page,
            other => panic!("unexpected result: {:?}", other),
        }
    };
    let first = page(&mut table, 1);
    let second = page(&mut table, 2);
    let third = page(&mut table, 3);

    assert_eq!(first.users.len(), 2);
    assert_eq!(first.total_count, 5);
    assert_eq!(first.limit, 2);
    assert_eq!(first.offset, 0);
    assert_eq!(second.users.len(), 2);
    assert_eq!(second.total_count, 5);
    assert_eq!(second.limit, 2);
    assert_eq!(second.offset, 2);
    assert_eq!(third.users.len(), 1);
    assert_eq!(third.total_count, 5);
    for user in &first.users {
        assert!(!second.users.contains(user));
        assert!(!third.users.contains(user));
    }
    for user in &second.users {
        assert!(!third.users.contains(user));
    }

    // The page after the last holds no user.
    let step = service.list(4, 2, None);
    assert_eq!(
        run(&service, &mut table, step),
        Err(UsersServiceError::NotFound)
    );
}

#[test]
fn listing_passes_the_search_term_on() {
    let service = service();
    let mut table = table();
    five_users(&service, &mut table);
    assert_eq!(
        service.list(1, 20, Some("USER3".to_string())),
        Step::Ask {
            query: Query::ListUsers {
                search: Some("USER3".to_string()),
                limit: 20,
                offset: 0
            },
            pending: Pending::List {
                limit: 20,
                offset: 0
            },
        }
    );
    let step = service.list(1, 20, Some("USER3".to_string()));
    match run(&service, &mut table, step) {
        Ok(Outcome::Users(page)) => {
            assert_eq!(page.total_count, 1);
            assert_eq!(page.users[0].username, "user3");
        }
        other => panic!("unexpected result: {:?}", other),
    }
}

fn changes() -> UpdateUser {
    UpdateUser {
        username: Some("renamed".to_string()),
        email: Some("Renamed@Example.COM".to_string()),
        password: None,
        first_name: None,
        last_name: None,
        bio: Some("changed".to_string()),
    }
}

fn registered(service: &UsersService, table: &mut Table) -> User {
    let step = service.sign_up(registration("testuser", "test@example.com"));
    match run(service, table, step) {
        Ok(Outcome::SignedUp(response)) => response.user,
        other => panic!("unexpected result: {:?}", other),
    }
}

#[test]
fn update_without_password_needs_no_old_password() {
    let service = service();
    let mut table = table();
    let user = registered(&service, &mut table);
    let step = service.update(&user.id.to_string(), changes(), None);
    match run(&service, &mut table, step) {
        Ok(Outcome::User(updated)) => {
            assert_eq!(updated.id, user.id);
            assert_eq!(updated.username, "renamed");
            assert_eq!(updated.email, "renamed@example.com");
            assert_eq!(updated.bio, Some("changed".to_string()));
            assert_eq!(updated.first_name, user.first_name);
        }
        other => panic!("unexpected result: {:?}", other),
    }
    // The password is as it was.
    assert_eq!(
        verify_password(&table.rows[0].password_hash, "Password123!"),
        Ok(true)
    );
}

#[test]
fn changing_the_password_needs_the_old_password() {
    let service = service();
    let mut table = table();
    let user = registered(&service, &mut table);
    let mut data = changes();
    data.password = Some("NewPassword123!".to_string());

    let step = service.update(&user.id.to_string(), data.clone(), None);
    assert_eq!(
        run(&service, &mut table, step),
        Err(UsersServiceError::WrongCredentials(
            "To change password please provide old password".to_string()
        ))
    );
    let step = service.update(
        &user.id.to_string(),
        data.clone(),
        Some("WrongPassword123!".to_string()),
    );
    assert_eq!(
        run(&service, &mut table, step),
        Err(UsersServiceError::WrongCredentials(
            "Wrong old password".to_string()
        ))
    );
    // Nothing was written.
    assert_eq!(table.rows[0].user, user);
    assert_eq!(
        verify_password(&table.rows[0].password_hash, "Password123!"),
        Ok(true)
    );

    let step = service.update(
        &user.id.to_string(),
        data,
        Some("Password123!".to_string()),
    );
    assert!(matches!(
        run(&service, &mut table, step),
        Ok(Outcome::User(_))
    ));
    // The new password is stored as a hash, and the old one is no longer
    // accepted.
    assert_ne!(table.rows[0].password_hash, "NewPassword123!");
    assert_eq!(
        verify_password(&table.rows[0].password_hash, "NewPassword123!"),
        Ok(true)
    );
    assert_eq!(
        verify_password(&table.rows[0].password_hash, "Password123!"),
        Ok(false)
    );
    let step = service.sign_in(credentials("renamed@example.com", "NewPassword123!"));
    assert!(matches!(
        run(&service, &mut table, step),
        Ok(Outcome::SignedIn(_))
    ));
}

#[test]
fn update_of_nobody_is_not_found() {
    let service = service();
    let mut table = table();
    let step = service.update("550e8400-e29b-41d4-a716-446655440000", changes(), None);
    assert_eq!(
        run(&service, &mut table, step),
        Err(UsersServiceError::NotFound)
    );
    assert_eq!(
        service.update("xyz", changes(), None),
        Step::Done {
            result: Err(UsersServiceError::WrongCredentials(
                "Wrong id format".to_string()
            ))
        }
    );
}

#[test]
fn delete_returns_the_identifier_once() {
    let service = service();
    let mut table = table();
    let user = registered(&service, &mut table);
    let step = service.delete(&user.id.to_string());
    assert_eq!(
        run(&service, &mut table, step),
        Ok(Outcome::Deleted(user.id))
    );
    let step = service.delete(&user.id.to_string());
    assert_eq!(
        run(&service, &mut table, step),
        Err(UsersServiceError::NotFound)
    );
    assert_eq!(
        service.delete("not-a-uuid"),
        Step::Done {
            result: Err(UsersServiceError::WrongCredentials(
                "Wrong id format".to_string()
            ))
        }
    );
    let step = service.get_by_id(&user.id.to_string());
    assert_eq!(
        run(&service, &mut table, step),
        Err(UsersServiceError::NotFound)
    );
}

#[test]
fn check_username_says_whether_a_user_has_it() {
    let service = service();
    let mut table = table();
    registered(&service, &mut table);
    let step = service.check_username_exists("testuser");
    assert_eq!(
        run(&service, &mut table, step),
        Ok(Outcome::UsernameExists(true))
    );
    let step = service.check_username_exists("nobody");
    assert_eq!(
        run(&service, &mut table, step),
        Ok(Outcome::UsernameExists(false))
    );
    assert_eq!(
        service.resume(
            Pending::CheckUsername,
            Reply::Failed {
                reason: "connection refused".to_string()
            }
        ),
        Step::Done {
            result: Err(UsersServiceError::DatabaseError(
                "connection refused".to_string()
            ))
        }
    );
}

fn sample_user() -> User {
    User {
        id: UserId { value: 5 },
        username: "testuser".to_string(),
        email: "test@example.com".to_string(),
        first_name: None,
        last_name: None,
        bio: None,
        created_at: Timestamp {
            secs: 1_700_000_000,
            nanos: 0,
        },
    }
}

fn weak_password_report() -> ValidationErrors {
    let mut errors = ValidationErrors::new();
    errors.add("email", ValidationError::new("email"));
    errors.add(
        "password",
        ValidationError {
            code: "password_requirements".to_string(),
            message: Some("too weak".to_string()),
        },
    );
    errors
}

#[test]
fn requests_go_on_from_their_validation() {
    let service = service();
    let rejected = Step::Done {
        result: Err(UsersServiceError::WrongCredentials(
            "email: Validation error: email;password: too weak".to_string(),
        )),
    };
    let request = credentials("Test@Example.COM", "Password123!");
    assert_eq!(
        service.sign_in_validated(request.clone(), Err(weak_password_report())),
        rejected
    );
    assert_eq!(
        service.sign_in_validated(request.clone(), Ok(())),
        Step::Ask {
            query: Query::UserByEmail {
                email: "test@example.com".to_string()
            },
            pending: Pending::SignInUser {
                credentials: request
            },
        }
    );
    let data = registration("testuser", "Test@Example.COM");
    assert_eq!(
        service.sign_up_validated(data.clone(), Err(weak_password_report())),
        rejected
    );
    assert_eq!(
        service.sign_up_validated(data.clone(), Ok(())),
        Step::Ask {
            query: Query::UserByEmail {
                email: "test@example.com".to_string()
            },
            pending: Pending::SignUpUser { data },
        }
    );
    let account = CreateUser {
        username: "testuser".to_string(),
        email: "Test@Example.COM".to_string(),
        password: "Password123!".to_string(),
        first_name: None,
        last_name: None,
        bio: None,
    };
    assert_eq!(
        service.create_validated(
            account.clone(),
            Err(weak_password_report()),
            Ok("$argon2id$stored".to_string())
        ),
        rejected
    );
    match service.create_validated(account.clone(), Ok(()), Ok("$argon2id$stored".to_string())) {
        Step::Ask {
            query: Query::InsertUser { row },
            pending: Pending::Create,
        } => {
            assert_eq!(row.email, "test@example.com");
            assert_eq!(row.password_hash, "$argon2id$stored");
        }
        other => panic!("unexpected step: {:?}", other),
    }
    assert_eq!(
        service.create_validated(account, Ok(()), no_hash()),
        Step::Done {
            result: Err(UsersServiceError::DatabaseError(
                "attempted to communicate with a crashed background worker".to_string()
            ))
        }
    );
}

#[test]
fn operations_on_an_identifier_go_on_from_its_reading() {
    let service = service();
    let id = UserId { value: 7 };
    let wrong = Step::Done {
        result: Err(UsersServiceError::WrongCredentials(
            "Wrong id format".to_string(),
        )),
    };
    assert_eq!(
        service.get_by_id_parsed(Some(id)),
        Step::Ask {
            query: Query::UserById { id },
            pending: Pending::Fetch
        }
    );
    assert_eq!(service.get_by_id_parsed(None), wrong);
    assert_eq!(
        service.update_parsed(Some(id), changes(), Some("old".to_string())),
        Step::Ask {
            query: Query::UserById { id },
            pending: Pending::UpdateUser {
                data: changes(),
                old_password: Some("old".to_string())
            },
        }
    );
    assert_eq!(service.update_parsed(None, changes(), None), wrong);
    assert_eq!(
        service.delete_parsed(Some(id)),
        Step::Ask {
            query: Query::DeleteUser { id },
            pending: Pending::Delete
        }
    );
    assert_eq!(service.delete_parsed(None), wrong);
}

#[test]
fn sign_in_goes_on_from_the_verdict_of_the_stored_hash() {
    let service = service();
    assert_eq!(
        service.sign_in_judged(sample_user(), Ok(false), 1_700_000_000),
        Step::Done {
            result: Err(UsersServiceError::WrongCredentials(GENERIC.to_string()))
        }
    );
    assert_eq!(
        service.sign_in_judged(
            sample_user(),
            Err(StorageError::WorkerCrashed),
            1_700_000_000
        ),
        Step::Done {
            result: Err(UsersServiceError::VerificationError(
                "attempted to communicate with a crashed background worker".to_string()
            ))
        }
    );
    match service.sign_in_judged(sample_user(), Ok(true), 1_700_000_000) {
        Step::Done {
            result: Ok(Outcome::SignedIn(response)),
        } => {
            assert_eq!(response.user, sample_user());
            assert_eq!(
                Ok(response.token),
                user_accounts::services::token::mint_at(
                    "your-secret-key",
                    &sample_user(),
                    1_700_000_000
                )
            );
        }
        other => panic!("unexpected step: {:?}", other),
    }
}

#[test]
fn update_goes_on_from_the_verdict_of_the_stored_hash() {
    let service = service();
    let mut data = changes();
    data.password = Some("NewPassword123!".to_string());
    assert_eq!(
        service.update_judged(
            sample_user(),
            data.clone(),
            Ok(false),
            Ok("$argon2id$new".to_string())
        ),
        Step::Done {
            result: Err(UsersServiceError::WrongCredentials(
                "Wrong old password".to_string()
            ))
        }
    );
    assert_eq!(
        service.update_judged(
            sample_user(),
            data.clone(),
            Err(StorageError::WorkerCrashed),
            Ok("$argon2id$new".to_string())
        ),
        Step::Done {
            result: Err(UsersServiceError::VerificationError(
                "attempted to communicate with a crashed background worker".to_string()
            ))
        }
    );
    match service.update_judged(
        sample_user(),
        data.clone(),
        Ok(true),
        Ok("$argon2id$new".to_string()),
    ) {
        Step::Ask {
            query: Query::UpdateUser { id, changes },
            pending: Pending::Fetch,
        } => {
            assert_eq!(id, sample_user().id);
            assert_eq!(changes.password_hash, Some("$argon2id$new".to_string()));
            assert_eq!(changes.email, Some("renamed@example.com".to_string()));
            assert_eq!(changes.username, Some("renamed".to_string()));
        }
        other => panic!("unexpected step: {:?}", other),
    }
    assert_eq!(
        service.update_judged(sample_user(), data, Ok(true), no_hash()),
        Step::Done {
            result: Err(UsersServiceError::DatabaseError(
                "attempted to communicate with a crashed background worker".to_string()
            ))
        }
    );
}

#[test]
fn session_is_opened_with_the_token_or_ends_with_its_error() {
    let service = service();
    assert_eq!(
        service.session_opened(sample_user(), Ok("token".to_string()), false),
        Step::Done {
            result: Ok(Outcome::SignedIn(user_accounts::models::SignInResponse {
                user: sample_user(),
                token: "token".to_string()
            }))
        }
    );
    assert_eq!(
        service.session_opened(sample_user(), Ok("token".to_string()), true),
        Step::Done {
            result: Ok(Outcome::SignedUp(user_accounts::models::SignUpResponse {
                user: sample_user(),
                token: "token".to_string()
            }))
        }
    );
    let error = UsersServiceError::DatabaseError("Failed to generate token: x".to_string());
    assert_eq!(
        service.session_opened(sample_user(), Err(error.clone()), true),
        Step::Done { result: Err(error) }
    );
}

#[test]
fn only_steps_that_store_a_password_have_one_hashed() {
    let free = Reply::User { user: None };
    let taken = Reply::User {
        user: Some(sample_user()),
    };
    let failed = Reply::Failed {
        reason: "connection refused".to_string(),
    };
    let sign_up = Pending::SignUpUser {
        data: registration("testuser", "test@example.com"),
    };
    assert_eq!(password_to_hash(&sign_up, &free), Some("Password123!"));
    assert_eq!(password_to_hash(&sign_up, &failed), Some("Password123!"));
    assert_eq!(password_to_hash(&sign_up, &taken), None);
    assert_eq!(
        password_to_hash(&sign_up, &Reply::Deleted { id: None }),
        None
    );

    let mut data = changes();
    data.password = Some("NewPassword123!".to_string());
    let update = Pending::UpdateHash {
        user: sample_user(),
        data,
        old_password: "Password123!".to_string(),
    };
    let stored = Reply::PasswordHash {
        hash: Some("$argon2id$stored".to_string()),
    };
    assert_eq!(password_to_hash(&update, &stored), Some("NewPassword123!"));
    assert_eq!(
        password_to_hash(&update, &Reply::PasswordHash { hash: None }),
        None
    );
    assert_eq!(password_to_hash(&update, &failed), None);
    let unchanged = Pending::UpdateHash {
        user: sample_user(),
        data: changes(),
        old_password: "Password123!".to_string(),
    };
    assert_eq!(password_to_hash(&unchanged, &stored), None);

    // No other step stores a password.
    assert_eq!(password_to_hash(&Pending::Fetch, &free), None);
    assert_eq!(password_to_hash(&Pending::SignUpInsert, &taken), None);
    let sign_in = Pending::SignInHash {
        user: sample_user(),
        password: "Password123!".to_string(),
    };
    assert_eq!(password_to_hash(&sign_in, &stored), None);
}

#[test]
fn invalid_requests_name_every_failure_and_ask_nothing() {
    let service = service();
    let mut request = registration("testuser", "invalid-email");
    request.password = "weak".to_string();
    assert_eq!(
        service.sign_up(request),
        Step::Done {
            result: Err(UsersServiceError::WrongCredentials(
                "email: Validation error: email;password: Validation error: length;password: Password requirements not met: uppercase letter required, digit required, special character required"
                    .to_string()
            ))
        }
    );
    let account = CreateUser {
        username: "testuser".to_string(),
        email: "test@example.com".to_string(),
        password: "a".repeat(65),
        first_name: None,
        last_name: None,
        bio: None,
    };
    assert_eq!(
        service.create(account),
        Step::Done {
            result: Err(UsersServiceError::WrongCredentials(
                "password: Validation error: length;password: Password requirements not met: uppercase letter required, digit required, special character required"
                    .to_string()
            ))
        }
    );
    assert_eq!(
        service.sign_in(credentials("invalid-email", "anypassword")),
        Step::Done {
            result: Err(UsersServiceError::WrongCredentials(
                "email: Validation error: email".to_string()
            ))
        }
    );
}
