//! Validation reports: what a failed check of one field says, and the list of
//! such failures that checking a whole request produces.

use vstd::prelude::*;
use validator::{ValidateEmail, ValidateLength};
use crate::text::same_text;

verus! {

/// Whether a text is an acceptable e-mail address. The rule is the HTML5 one
/// that the `validator` crate implements with regular expressions and IDNA
/// conversion; it is left uninterpreted here.
pub uninterp spec fn email_well_formed(email: Seq<char>) -> bool;

/// Trusted: `ValidateEmail::validate_email` of `validator`, called on a
/// `&str`. The contract names the result and repeats the two early exits of
/// that function: an empty text and a text without `@` are never accepted.
#[verifier::external_body]
pub(crate) fn validate_email(email: &str) -> (ok: bool)
    ensures
        ok == email_well_formed(email@),
        email@.len() == 0 ==> !ok,
        !email@.contains('@') ==> !ok,
{
    ValidateEmail::validate_email(&email)
}

/// Trusted: `ValidateLength::validate_length` of `validator`, called on a
/// `&str` with a minimum and a maximum and no exact length. It counts the
/// characters of the text and accepts exactly the counts within the bounds.
#[verifier::external_body]
pub(crate) fn validate_length(s: &str, min: u64, max: u64) -> (ok: bool)
    ensures
        ok == (min <= s@.len() <= max),
{
    ValidateLength::validate_length(&s, Some(min), Some(max), None)
}

/// One failed check: a machine-readable code and, for some checks, a message
/// meant for the user.
#[derive(Debug, Clone, PartialEq, Eq)]
pub struct ValidationError {
    pub code: String,
    pub message: Option<String>,
}

/// The mathematical content of a [`ValidationError`].
pub ghost struct ValidationErrorView {
    pub code: Seq<char>,
    pub message: Option<Seq<char>>,
}

impl View for ValidationError {
    type V = ValidationErrorView;

    open spec fn view(&self) -> ValidationErrorView {
        ValidationErrorView { code: self.code@, message: self.message.deep_view() }
    }
}

impl ValidationErrorView {
    /// What the error reads as: its message where it has one, else a line
    /// that gives its code.
    pub open spec fn rendered(self) -> Seq<char> {
        match self.message {
            Some(m) => m,
            None => "Validation error: "@ + self.code,
        }
    }
}

impl ValidationError {
    /// An error with the given code and no message.
    pub fn new(code: &str) -> (e: Self)
        ensures
            e@ == (ValidationErrorView { code: code@, message: None }),
    {
        ValidationError { code: String::from_str(code), message: None }
    }

    /// The error as a line of text.
    pub fn to_string(&self) -> (s: String)
        ensures
            s@ == self@.rendered(),
    {
        match &self.message {
            Some(m) => m.clone(),
            None => {
                let mut s = String::from_str("Validation error: ");
                s.append(self.code.as_str());
                s
            },
        }
    }
}

/// A failed check together with the field it was made on.
#[derive(Debug, Clone, PartialEq, Eq)]
pub struct FieldError {
    pub field: String,
    pub error: ValidationError,
}

/// The mathematical content of a [`FieldError`].
pub ghost struct FieldErrorView {
    pub field: Seq<char>,
    pub error: ValidationErrorView,
}

impl View for FieldError {
    type V = FieldErrorView;

    open spec fn view(&self) -> FieldErrorView {
        FieldErrorView { field: self.field@, error: self.error@ }
    }
}

/// The failures found while checking a request, in the order in which the
/// checks were made.
#[derive(Debug, Clone, PartialEq, Eq)]
pub struct ValidationErrors {
    pub entries: Vec<FieldError>,
}

impl View for ValidationErrors {
    type V = Seq<FieldErrorView>;

    open spec fn view(&self) -> Seq<FieldErrorView> {
        self.entries@.map_values(|e: FieldError| e@)
    }
}

/// What the check of an e-mail address adds to a report: nothing where the
/// address is well formed, else one failure with the code `email` on the
/// field `email`.
pub open spec fn email_failure(well_formed: bool) -> Seq<FieldErrorView> {
    if well_formed {
        Seq::empty()
    } else {
        seq![
            FieldErrorView {
                field: "email"@,
                error: ValidationErrorView { code: "email"@, message: None },
            },
        ]
    }
}

/// What checking the address `email` adds to a report.
pub open spec fn email_errors(email: Seq<char>) -> Seq<FieldErrorView> {
    email_failure(email_well_formed(email))
}

/// The mathematical content of the result of a validation.
pub open spec fn validation_view(res: Result<(), ValidationErrors>) -> Result<
    (),
    Seq<FieldErrorView>,
> {
    match res {
        Ok(()) => Ok(()),
        Err(errors) => Err(errors@),
    }
}

/// What a validation that found `errors` gives: success where there are
/// none, else all of them.
pub open spec fn verdict_of(errors: Seq<FieldErrorView>) -> Result<(), Seq<FieldErrorView>> {
    if errors.len() == 0 {
        Ok(())
    } else {
        Err(errors)
    }
}

/// Whether a text is empty or holds no `@`. Such a text is never a
/// well-formed address.
pub open spec fn lacks_at_sign(email: Seq<char>) -> bool {
    email.len() == 0 || !email.contains('@')
}

/// Whether some failure in `errors` was found on `field`.
pub open spec fn names_field(errors: Seq<FieldErrorView>, field: Seq<char>) -> bool {
    exists|i: int| 0 <= i < errors.len() && (#[trigger] errors[i]).field == field
}

impl ValidationErrors {
    /// A report without failures.
    pub fn new() -> (errors: Self)
        ensures
            errors@ == Seq::<FieldErrorView>::empty(),
    {
        let errors = ValidationErrors { entries: Vec::new() };
        assert(errors@ =~= Seq::<FieldErrorView>::empty());
        errors
    }

    /// Records one more failure, found on `field`.
    pub fn add(&mut self, field: &str, error: ValidationError)
        ensures
            final(self)@ == old(self)@.push(FieldErrorView { field: field@, error: error@ }),
    {
        let entry = FieldError { field: String::from_str(field), error };
        self.entries.push(entry);
        assert(self@ =~= old(self)@.push(entry@));
    }

    /// Whether the report holds no failure.
    pub fn is_empty(&self) -> (empty: bool)
        ensures
            empty == (self@.len() == 0),
    {
        self.entries.len() == 0
    }

    /// Ends a validation: success where nothing was recorded, else the
    /// report.
    pub fn into_result(self) -> (res: Result<(), ValidationErrors>)
        ensures
            validation_view(res) == verdict_of(self@),
    {
        if self.is_empty() {
            Ok(())
        } else {
            Err(self)
        }
    }

    /// Whether the report holds a failure found on `field`.
    pub fn contains_key(&self, field: &str) -> (found: bool)
        ensures
            found == names_field(self@, field@),
    {
        let mut i: usize = 0;
        while i < self.entries.len()
            invariant
                i <= self.entries.len(),
                forall|j: int| 0 <= j < i ==> (#[trigger] self@[j]).field != field@,
            decreases self.entries.len() - i,
        {
            if same_text(self.entries[i].field.as_str(), field) {
                assert(self@[i as int].field == field@);
                return true;
            }
            i = i + 1;
        }
        false
    }
}

/// Records what the check of an e-mail address gave, on the field `email`.
pub fn note_email(errors: &mut ValidationErrors, well_formed: bool)
    ensures
        final(errors)@ == old(errors)@ + email_failure(well_formed),
{
    if !well_formed {
        errors.add("email", ValidationError::new("email"));
    }
    assert(errors@ =~= old(errors)@ + email_failure(well_formed));
}

/// Checks an e-mail address and records the failure, if any, on the field
/// `email`.
pub fn check_email(errors: &mut ValidationErrors, email: &str)
    ensures
        final(errors)@ == old(errors)@ + email_errors(email@),
        lacks_at_sign(email@) ==> !email_well_formed(email@),
{
    let well_formed = validate_email(email);
    note_email(errors, well_formed);
}

} // verus!
