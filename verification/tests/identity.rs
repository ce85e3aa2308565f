use user_accounts::models::{Timestamp, User, UserId};

#[test]
fn user_id_reads_and_writes_uuid_notation() {
    let id = UserId::parse_str("550e8400-e29b-41d4-a716-446655440000").unwrap();
    assert_eq!(id.value, 0x550e8400e29b41d4a716446655440000u128);
    assert_eq!(id.to_string(), "550e8400-e29b-41d4-a716-446655440000");
    // The notation without hyphens and upper-case digits are read too.
    assert_eq!(
        UserId::parse_str("550E8400E29B41D4A716446655440000"),
        Some(id)
    );
    assert_eq!(UserId::parse_str("not-a-uuid"), None);
    assert_eq!(UserId::parse_str(""), None);
}

#[test]
fn nil_id_is_all_zero() {
    let nil = UserId::nil();
    assert_eq!(nil.value, 0);
    assert!(nil.is_nil());
    assert_eq!(nil.to_string(), "00000000-0000-0000-0000-000000000000");
    assert!(!UserId { value: 1 }.is_nil());
}

#[test]
fn default_user_is_anonymous() {
    let user = User::default();
    assert_eq!(user.id, UserId::nil());
    assert_eq!(user.username, "");
    assert_eq!(user.email, "");
    assert_eq!(user.first_name, None);
    assert_eq!(user.last_name, None);
    assert_eq!(user.bio, None);
    // The default user is created "now": well after the year 2020.
    assert!(user.created_at.secs > 1_577_836_800);
    assert!(user.is_anonymous());
    assert!(!user.is_authenticated());
    assert!(!user.is_active());
}

#[test]
fn registered_user_is_authenticated() {
    let mut user = User::default();
    user.id = UserId { value: 42 };
    assert!(user.is_authenticated());
    assert!(user.is_active());
    assert!(!user.is_anonymous());
}

#[test]
fn anonymous_user_keeps_the_instant_it_is_given() {
    let at = Timestamp {
        secs: 1_700_000_000,
        nanos: 500,
    };
    assert_eq!(
        User::anonymous_at(at),
        User {
            id: UserId { value: 0 },
            username: String::new(),
            email: String::new(),
            first_name: None,
            last_name: None,
            bio: None,
            created_at: at,
        }
    );
}
