use user_accounts::models::password::{
    check_password, classify, note_password, report, Classes,
};
use user_accounts::validation::{
    check_email, note_email, FieldError, ValidationError, ValidationErrors,
};

fn all() -> Classes {
    Classes {
        uppercase: true,
        lowercase: true,
        digit: true,
        special: true,
    }
}

fn policy_error(message: &str) -> ValidationError {
    ValidationError {
        code: "password_requirements".to_string(),
        message: Some(message.to_string()),
    }
}

#[test]
fn classes_are_found_wherever_they_stand() {
    assert_eq!(classify("Password123!"), all());
    assert_eq!(
        classify("password"),
        Classes {
            uppercase: false,
            lowercase: true,
            digit: false,
            special: false
        }
    );
    assert_eq!(
        classify("?9"),
        Classes {
            uppercase: false,
            lowercase: false,
            digit: true,
            special: true
        }
    );
    assert_eq!(
        classify(""),
        Classes {
            uppercase: false,
            lowercase: false,
            digit: false,
            special: false
        }
    );
}

#[test]
fn report_names_each_missing_class() {
    assert_eq!(report(all()), Ok(()));
    assert_eq!(
        report(Classes {
            uppercase: false,
            ..all()
        }),
        Err(policy_error(
            "Password requirements not met: uppercase letter required"
        ))
    );
    assert_eq!(
        report(Classes {
            lowercase: false,
            ..all()
        }),
        Err(policy_error(
            "Password requirements not met: lowercase letter required"
        ))
    );
    assert_eq!(
        report(Classes {
            digit: false,
            ..all()
        }),
        Err(policy_error("Password requirements not met: digit required"))
    );
    assert_eq!(
        report(Classes {
            special: false,
            ..all()
        }),
        Err(policy_error(
            "Password requirements not met: special character required"
        ))
    );
    assert_eq!(
        report(Classes {
            uppercase: false,
            lowercase: true,
            digit: true,
            special: false
        }),
        Err(policy_error(
            "Password requirements not met: uppercase letter required, special character required"
        ))
    );
}

#[test]
fn notes_add_failures_in_the_order_of_the_checks() {
    let mut errors = ValidationErrors::new();
    note_email(&mut errors, true);
    note_password(&mut errors, "password", true, Ok(()));
    assert!(errors.is_empty());
    assert_eq!(errors.clone().into_result(), Ok(()));

    note_email(&mut errors, false);
    note_password(
        &mut errors,
        "confirm_password",
        false,
        Err(policy_error("too weak")),
    );
    assert_eq!(
        errors.entries,
        vec![
            FieldError {
                field: "email".to_string(),
                error: ValidationError::new("email"),
            },
            FieldError {
                field: "confirm_password".to_string(),
                error: ValidationError::new("length"),
            },
            FieldError {
                field: "confirm_password".to_string(),
                error: policy_error("too weak"),
            },
        ]
    );
    assert!(errors.contains_key("email"));
    assert!(errors.contains_key("confirm_password"));
    assert!(!errors.contains_key("password"));
    assert_eq!(errors.clone().into_result(), Err(errors));
}

#[test]
fn checks_record_what_they_find() {
    let mut errors = ValidationErrors::new();
    check_email(&mut errors, "test@example.com");
    check_password(&mut errors, "password", "Password123!");
    assert!(errors.is_empty());

    check_email(&mut errors, "test@");
    check_password(&mut errors, "password", "Password123");
    assert_eq!(
        errors.entries,
        vec![
            FieldError {
                field: "email".to_string(),
                error: ValidationError::new("email"),
            },
            FieldError {
                field: "password".to_string(),
                error: policy_error("Password requirements not met: special character required"),
            },
        ]
    );
}

#[test]
fn addresses_are_checked_by_the_html_rule() {
    let accepted = |email: &str| {
        let mut errors = ValidationErrors::new();
        check_email(&mut errors, email);
        errors.is_empty()
    };
    assert!(accepted("email@here.com"));
    assert!(accepted("weirder-email@here.and.there.com"));
    assert!(accepted("email@[127.0.0.1]"));
    assert!(!accepted(""));
    assert!(!accepted("no-at-sign.example.com"));
    assert!(!accepted("@example.com"));
    assert!(!accepted("two@signs@example.com"));
    assert!(!accepted("space in@example.com"));
}
