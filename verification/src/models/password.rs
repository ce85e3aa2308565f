//! The password policy: which classes of character a password must hold, and
//! what is reported when some are missing.

use vstd::prelude::*;
use crate::text::{
    ascii_digit, char_is_lowercase, char_is_uppercase, contains_char, is_substring, join, joined,
    lemma_part_in_joined, lemma_substring_widens, texts,
};
use crate::validation::{
    validate_length, FieldErrorView, ValidationError, ValidationErrorView, ValidationErrors,
};

verus! {

/// The punctuation characters of which a password must hold at least one.
pub open spec fn special_characters() -> Seq<char> {
    "!@#$%^&*()_+-=[]{}|;:,.<>?"@
}

/// Whether `c` is one of the punctuation characters that the policy names.
pub open spec fn is_special(c: char) -> bool {
    special_characters().contains(c)
}

/// Which of the four classes of character a password holds.
#[derive(Debug, Clone, Copy, PartialEq, Eq, Structural)]
pub struct Classes {
    pub uppercase: bool,
    pub lowercase: bool,
    pub digit: bool,
    pub special: bool,
}

impl Classes {
    /// Whether all four classes are there.
    pub open spec fn complete(self) -> bool {
        self.uppercase && self.lowercase && self.digit && self.special
    }
}

/// Whether `p` holds an uppercase letter, of any script.
pub open spec fn has_uppercase(p: Seq<char>) -> bool {
    exists|i: int| 0 <= i < p.len() && char_is_uppercase(#[trigger] p[i])
}

/// Whether `p` holds a lowercase letter, of any script.
pub open spec fn has_lowercase(p: Seq<char>) -> bool {
    exists|i: int| 0 <= i < p.len() && char_is_lowercase(#[trigger] p[i])
}

/// Whether `p` holds one of the digits `0` to `9`.
pub open spec fn has_digit(p: Seq<char>) -> bool {
    exists|i: int| 0 <= i < p.len() && ascii_digit(#[trigger] p[i])
}

/// Whether `p` holds one of the punctuation characters that the policy
/// names.
pub open spec fn has_special(p: Seq<char>) -> bool {
    exists|i: int| 0 <= i < p.len() && is_special(#[trigger] p[i])
}

/// The classes of character that `p` holds.
pub open spec fn classes_of(p: Seq<char>) -> Classes {
    Classes {
        uppercase: has_uppercase(p),
        lowercase: has_lowercase(p),
        digit: has_digit(p),
        special: has_special(p),
    }
}

/// The four-class rule: an uppercase letter, a lowercase letter, a digit and
/// a punctuation character.
pub open spec fn meets_policy(p: Seq<char>) -> bool {
    classes_of(p).complete()
}

/// `seq![text]` where the class is missing, the empty sequence where it is
/// present.
pub open spec fn when_missing(present: bool, text: Seq<char>) -> Seq<Seq<char>> {
    if present {
        Seq::empty()
    } else {
        seq![text]
    }
}

/// The rules that a password with the classes `found` breaks, each by its
/// description, in the fixed order uppercase, lowercase, digit, punctuation.
pub open spec fn broken_rules(found: Classes) -> Seq<Seq<char>> {
    when_missing(found.uppercase, "uppercase letter required"@) + when_missing(
        found.lowercase,
        "lowercase letter required"@,
    ) + when_missing(found.digit, "digit required"@) + when_missing(
        found.special,
        "special character required"@,
    )
}

/// The message that reports every rule in `rules` as broken.
pub open spec fn breach_message(rules: Seq<Seq<char>>) -> Seq<char> {
    "Password requirements not met: "@ + joined(rules, ", "@)
}

/// What a password with the classes `found` is answered with: nothing where
/// all four are there, else the error that reports every missing one.
pub open spec fn report_of(found: Classes) -> Result<(), ValidationErrorView> {
    if found.complete() {
        Ok(())
    } else {
        Err(
            ValidationErrorView {
                code: "password_requirements"@,
                message: Some(breach_message(broken_rules(found))),
            },
        )
    }
}

/// The rules that `p` breaks.
pub open spec fn violations(p: Seq<char>) -> Seq<Seq<char>> {
    broken_rules(classes_of(p))
}

/// The message that reports every rule that `p` breaks.
pub open spec fn policy_message(p: Seq<char>) -> Seq<char> {
    breach_message(violations(p))
}

/// The error that a password breaking the policy is answered with.
pub open spec fn policy_error(p: Seq<char>) -> ValidationErrorView {
    ValidationErrorView { code: "password_requirements"@, message: Some(policy_message(p)) }
}

/// The mathematical content of the answer to a password.
pub open spec fn report_view(res: Result<(), ValidationError>) -> Result<
    (),
    ValidationErrorView,
> {
    match res {
        Ok(()) => Ok(()),
        Err(e) => Err(e@),
    }
}

/// Every rule that a password breaks is named in the message that reports
/// the breach, and a rule that it keeps is not among those listed.
pub proof fn broken_rules_are_reported(p: Seq<char>)
    ensures
        !has_uppercase(p) ==> is_substring("uppercase letter required"@, policy_message(p)),
        !has_lowercase(p) ==> is_substring("lowercase letter required"@, policy_message(p)),
        !has_digit(p) ==> is_substring("digit required"@, policy_message(p)),
        !has_special(p) ==> is_substring("special character required"@, policy_message(p)),
        has_uppercase(p) ==> !violations(p).contains("uppercase letter required"@),
        has_lowercase(p) ==> !violations(p).contains("lowercase letter required"@),
        has_digit(p) ==> !violations(p).contains("digit required"@),
        has_special(p) ==> !violations(p).contains("special character required"@),
        meets_policy(p) <==> violations(p).len() == 0,
{
    let v = violations(p);
    let prefix = "Password requirements not met: "@;
    let none = Seq::<char>::empty();
    reveal_strlit("uppercase letter required");
    reveal_strlit("lowercase letter required");
    reveal_strlit("digit required");
    reveal_strlit("special character required");
    assert("uppercase letter required"@[0] == 'u');
    assert("lowercase letter required"@[0] == 'l');
    assert("digit required"@[0] == 'd');
    assert("special character required"@[0] == 's');
    assert forall|k: int| 0 <= k < v.len() implies is_substring(
        #[trigger] v[k],
        policy_message(p),
    ) by {
        lemma_part_in_joined(v, ", "@, k);
        lemma_substring_widens(v[k], joined(v, ", "@), prefix, none);
        assert(prefix + joined(v, ", "@) + none =~= policy_message(p));
    }
    let a = when_missing(has_uppercase(p), "uppercase letter required"@);
    let b = when_missing(has_lowercase(p), "lowercase letter required"@);
    let c = when_missing(has_digit(p), "digit required"@);
    let d = when_missing(has_special(p), "special character required"@);
    if !has_uppercase(p) {
        assert(v[0] == "uppercase letter required"@);
    }
    if !has_lowercase(p) {
        assert(v[a.len() as int] == "lowercase letter required"@);
    }
    if !has_digit(p) {
        assert(v[(a.len() + b.len()) as int] == "digit required"@);
    }
    if !has_special(p) {
        assert(v[(a.len() + b.len() + c.len()) as int] == "special character required"@);
    }
}

/// The fewest characters that a password may have.
pub const MIN_PASSWORD_LENGTH: u64 = 8;

/// The most characters that a password may have.
pub const MAX_PASSWORD_LENGTH: u64 = 64;

/// Whether the number of characters of `p` is within the bounds.
pub open spec fn length_allowed(p: Seq<char>) -> bool {
    MIN_PASSWORD_LENGTH <= p.len() <= MAX_PASSWORD_LENGTH
}

/// A password that the service accepts: of allowed length, with all four
/// classes of character.
pub open spec fn acceptable(p: Seq<char>) -> bool {
    length_allowed(p) && meets_policy(p)
}

/// What the two checks of a password add to a report, on the field that
/// holds it: a failure with the code `length` where the length is out of
/// bounds, then the policy error where there is one.
pub open spec fn password_failures(
    field: Seq<char>,
    length_ok: bool,
    policy: Result<(), ValidationErrorView>,
) -> Seq<FieldErrorView> {
    (if length_ok {
        Seq::empty()
    } else {
        seq![
            FieldErrorView {
                field,
                error: ValidationErrorView { code: "length"@, message: None },
            },
        ]
    }) + (match policy {
        Ok(()) => Seq::empty(),
        Err(error) => seq![FieldErrorView { field, error }],
    })
}

/// What checking the password `p` adds to a report, on the field that holds
/// it.
pub open spec fn password_errors(field: Seq<char>, p: Seq<char>) -> Seq<FieldErrorView> {
    password_failures(field, length_allowed(p), report_of(classes_of(p)))
}

/// A password passes its checks exactly when it is acceptable: no failure
/// is recorded for a password of allowed length with all four classes of
/// character, and at least one for any other.
pub proof fn acceptable_passwords_pass(field: Seq<char>, p: Seq<char>)
    ensures
        password_errors(field, p).len() == 0 <==> acceptable(p),
        forall|i: int|
            0 <= i < password_errors(field, p).len() ==> (#[trigger] password_errors(
                field,
                p,
            )[i]).field == field,
{
}

/// Looks once through `password` for each of the four classes.
pub fn classify(password: &str) -> (found: Classes)
    ensures
        found == classes_of(password@),
{
    let mut found = Classes { uppercase: false, lowercase: false, digit: false, special: false };
    for c in it: password.chars()
        invariant
            it.seq() == password@,
            found.uppercase == (exists|i: int|
                0 <= i < it.index() && char_is_uppercase(#[trigger] password@[i])),
            found.lowercase == (exists|i: int|
                0 <= i < it.index() && char_is_lowercase(#[trigger] password@[i])),
            found.digit == (exists|i: int|
                0 <= i < it.index() && ascii_digit(#[trigger] password@[i])),
            found.special == (exists|i: int|
                0 <= i < it.index() && is_special(#[trigger] password@[i])),
    {
        if c.is_uppercase() {
            found.uppercase = true;
        }
        if c.is_lowercase() {
            found.lowercase = true;
        }
        if c.is_ascii_digit() {
            found.digit = true;
        }
        if contains_char("!@#$%^&*()_+-=[]{}|;:,.<>?", c) {
            found.special = true;
        }
    }
    found
}

/// Answers a password that holds the classes `found`: all missing classes
/// are reported together, in one message.
pub fn report(found: Classes) -> (res: Result<(), ValidationError>)
    ensures
        report_view(res) == report_of(found),
{
    let mut errors: Vec<String> = Vec::new();
    assert(texts(errors@) =~= Seq::<Seq<char>>::empty());
    if !found.uppercase {
        errors.push(String::from_str("uppercase letter required"));
    }
    assert(texts(errors@) =~= when_missing(found.uppercase, "uppercase letter required"@));
    let ghost one = texts(errors@);
    if !found.lowercase {
        errors.push(String::from_str("lowercase letter required"));
    }
    assert(texts(errors@) =~= one + when_missing(found.lowercase, "lowercase letter required"@));
    let ghost two = texts(errors@);
    if !found.digit {
        errors.push(String::from_str("digit required"));
    }
    assert(texts(errors@) =~= two + when_missing(found.digit, "digit required"@));
    let ghost three = texts(errors@);
    if !found.special {
        errors.push(String::from_str("special character required"));
    }
    assert(texts(errors@) =~= three + when_missing(found.special, "special character required"@));
    if errors.len() > 0 {
        let error_message = join(&errors, ", ");
        let mut message = String::from_str("Password requirements not met: ");
        message.append(error_message.as_str());
        let error = ValidationError {
            code: String::from_str("password_requirements"),
            message: Some(message),
        };
        return Err(error);
    }
    Ok(())
}

/// Checks `password` against the four-class rule. All broken rules are
/// reported together, not just the first.
pub fn validate_password(password: &str) -> (res: Result<(), ValidationError>)
    ensures
        report_view(res) == report_of(classes_of(password@)),
        res is Ok <==> meets_policy(password@),
        res matches Err(e) ==> e@ == policy_error(password@),
{
    report(classify(password))
}

/// Records what the two checks of a password gave, on `field`.
pub fn note_password(
    errors: &mut ValidationErrors,
    field: &str,
    length_ok: bool,
    policy: Result<(), ValidationError>,
)
    ensures
        final(errors)@ == old(errors)@ + password_failures(field@, length_ok, report_view(policy)),
{
    if !length_ok {
        errors.add(field, ValidationError::new("length"));
    }
    match policy {
        Ok(()) => {},
        Err(error) => {
            errors.add(field, error);
        },
    }
    assert(errors@ =~= old(errors)@ + password_failures(field@, length_ok, report_view(policy)));
}

/// Checks the length and the classes of a password and records the
/// failures on `field`.
pub fn check_password(errors: &mut ValidationErrors, field: &str, password: &str)
    ensures
        final(errors)@ == old(errors)@ + password_errors(field@, password@),
{
    let length_ok = validate_length(password, MIN_PASSWORD_LENGTH, MAX_PASSWORD_LENGTH);
    let policy = validate_password(password);
    note_password(errors, field, length_ok, policy);
}

} // verus!
