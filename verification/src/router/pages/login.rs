//! The sign-in form: its live validation, and what a submission leads to.

use vstd::prelude::*;
use crate::models::password::{
    acceptable, acceptable_passwords_pass, check_password, password_errors,
};
use crate::models::user::{
    uuid_text, SessionView, SignInRequest, SignInRequestView, SignInResponse,
};
use crate::services::errors::{ServiceErrorView, UsersServiceError};
use crate::text::{contains_text, is_substring};
use crate::validation::{
    check_email, email_errors, email_well_formed, names_field, validation_view, verdict_of,
    FieldErrorView, ValidationErrors,
};

verus! {

/// What the form says under an address that is not well formed.
pub open spec fn email_hint() -> Seq<char> {
    "Введите корректный email"@
}

/// What the form says under a password that is not acceptable.
pub open spec fn password_hint() -> Seq<char> {
    "Требования к паролю: Заглавная буква, цифра, спецсимвол, длина от 8 до 64 символов"@
}

/// The word by which a password hint is known again.
pub open spec fn password_hint_mark() -> Seq<char> {
    "Требования"@
}

/// The sign-in form as it travels between browser and server: the two
/// fields, what is shown under each, and the anti-forgery token.
#[derive(Debug, Clone, PartialEq, Eq)]
pub struct LoginForm {
    pub email: String,
    pub email_error: Option<String>,
    pub password: String,
    pub password_error: Option<String>,
    pub csrf_token: String,
}

/// The mathematical content of a [`LoginForm`].
pub ghost struct LoginFormView {
    pub email: Seq<char>,
    pub email_error: Option<Seq<char>>,
    pub password: Seq<char>,
    pub password_error: Option<Seq<char>>,
    pub csrf_token: Seq<char>,
}

impl View for LoginForm {
    type V = LoginFormView;

    open spec fn view(&self) -> LoginFormView {
        LoginFormView {
            email: self.email@,
            email_error: self.email_error.deep_view(),
            password: self.password@,
            password_error: self.password_error.deep_view(),
            csrf_token: self.csrf_token@,
        }
    }
}

/// The failures that checking the form finds: those of the address, then
/// those of the password.
pub open spec fn login_errors(form: LoginFormView) -> Seq<FieldErrorView> {
    email_errors(form.email) + password_errors("password"@, form.password)
}

/// Whether nothing is shown under a field: no text, or an empty one.
pub open spec fn is_blank(shown: Option<Seq<char>>) -> bool {
    match shown {
        None => true,
        Some(text) => text.len() == 0,
    }
}

/// The form as the live validation answers it, given what checking it
/// found, with the token `csrf_token`. A form that passes shows nothing
/// under the address, and under the password what it showed before unless
/// that was a password hint. A form that fails gets a hint under each
/// failing field that is filled in.
pub open spec fn login_validated(
    form: LoginFormView,
    validation: Result<(), Seq<FieldErrorView>>,
    csrf_token: Seq<char>,
) -> LoginFormView {
    match validation {
        Ok(()) => LoginFormView {
            email: form.email,
            email_error: None,
            password: form.password,
            password_error: match form.password_error {
                Some(shown) => if is_substring(password_hint_mark(), shown) {
                    None
                } else {
                    Some(shown)
                },
                None => None,
            },
            csrf_token,
        },
        Err(errors) => LoginFormView {
            email: form.email,
            email_error: if names_field(errors, "email"@) && form.email.len() > 0 {
                Some(email_hint())
            } else {
                None
            },
            password: form.password,
            password_error: if names_field(errors, "password"@) && form.password.len() > 0 {
                Some(password_hint())
            } else {
                None
            },
            csrf_token,
        },
    }
}

/// The form as the live validation answers it with the token `csrf_token`.
pub open spec fn validated_login(form: LoginFormView, csrf_token: Seq<char>) -> LoginFormView {
    login_validated(form, verdict_of(login_errors(form)), csrf_token)
}

/// The empty form that carries the token `csrf_token`.
pub open spec fn blank_login(csrf_token: Seq<char>) -> LoginFormView {
    LoginFormView {
        email: Seq::empty(),
        email_error: None,
        password: Seq::empty(),
        password_error: None,
        csrf_token,
    }
}

/// What a request for the page is answered with: a visitor who is signed in
/// is sent on to the start page, any other is shown the empty form.
pub open spec fn login_page(signed_in: bool, csrf_token: Seq<char>) -> Option<LoginFormView> {
    if signed_in {
        None
    } else {
        Some(blank_login(csrf_token))
    }
}

/// The mathematical content of a form that may be absent.
pub open spec fn shown_view(form: Option<LoginForm>) -> Option<LoginFormView> {
    match form {
        Some(f) => Some(f@),
        None => None,
    }
}

/// Answers a request for the page: `None` sends the visitor, who is signed
/// in, on to the start page; `Some` is the form to show.
pub fn page(signed_in: bool, csrf_token: String) -> (shown: Option<LoginForm>)
    ensures
        shown_view(shown) == login_page(signed_in, csrf_token@),
{
    if signed_in {
        return None;
    }
    Some(
        LoginForm {
            email: String::new(),
            email_error: None,
            password: String::new(),
            password_error: None,
            csrf_token,
        },
    )
}

/// What a submission of the form leads to before the service is asked.
#[derive(Debug, Clone, PartialEq, Eq)]
pub enum LoginSubmission {
    /// The form goes back to the browser as given here.
    Rejected { form: LoginForm },
    /// A sign-in is to be tried with these credentials.
    Attempt { credentials: SignInRequest, form: LoginForm },
}

/// The mathematical content of a [`LoginSubmission`].
pub ghost enum LoginSubmissionView {
    Rejected { form: LoginFormView },
    Attempt { credentials: SignInRequestView, form: LoginFormView },
}

impl View for LoginSubmission {
    type V = LoginSubmissionView;

    open spec fn view(&self) -> LoginSubmissionView {
        match self {
            LoginSubmission::Rejected { form } => LoginSubmissionView::Rejected { form: form@ },
            LoginSubmission::Attempt { credentials, form } => LoginSubmissionView::Attempt {
                credentials: credentials@,
                form: form@,
            },
        }
    }
}

/// What a submission leads to: with a bad anti-forgery token the form goes
/// back saying so; a form that shows a hint goes back as it is; any other is
/// tried. The form that goes back carries the fresh token.
pub open spec fn submitted_login(
    form: LoginFormView,
    csrf_valid: bool,
    csrf_token: Seq<char>,
) -> LoginSubmissionView {
    if !csrf_valid {
        LoginSubmissionView::Rejected {
            form: LoginFormView {
                email: form.email,
                email_error: Some("Invalid CSRF token"@),
                password: form.password,
                password_error: None,
                csrf_token,
            },
        }
    } else if is_blank(form.email_error) && is_blank(form.password_error) {
        LoginSubmissionView::Attempt {
            credentials: SignInRequestView { email: form.email, password: form.password },
            form: LoginFormView { csrf_token, ..form },
        }
    } else {
        LoginSubmissionView::Rejected { form: LoginFormView { csrf_token, ..form } }
    }
}

/// How a sign-in that was tried from the form ends.
#[derive(Debug, Clone, PartialEq, Eq)]
pub enum LoginOutcome {
    /// The user with this identifier is signed in and sent to the start
    /// page.
    SignedIn { user_id: String },
    /// The form goes back to the browser as given here.
    Rejected { form: LoginForm },
}

/// The mathematical content of a [`LoginOutcome`].
pub ghost enum LoginOutcomeView {
    SignedIn { user_id: Seq<char> },
    Rejected { form: LoginFormView },
}

impl View for LoginOutcome {
    type V = LoginOutcomeView;

    open spec fn view(&self) -> LoginOutcomeView {
        match self {
            LoginOutcome::SignedIn { user_id } => LoginOutcomeView::SignedIn { user_id: user_id@ },
            LoginOutcome::Rejected { form } => LoginOutcomeView::Rejected { form: form@ },
        }
    }
}

/// The mathematical content of the result of a sign-in.
pub open spec fn sign_in_view(result: Result<SignInResponse, UsersServiceError>) -> Result<
    SessionView,
    ServiceErrorView,
> {
    match result {
        Ok(session) => Ok(session@),
        Err(e) => Err(e@),
    }
}

/// What is shown under the password for a sign-in that failed: the message
/// of a request at fault as it is, any other error as a whole.
pub open spec fn shown_failure(error: ServiceErrorView) -> Seq<char> {
    match error {
        ServiceErrorView::WrongCredentials(message) => message,
        _ => error.rendered(),
    }
}

/// How a sign-in that was tried from the form ends: the user is signed in,
/// or the form goes back with the failure under the password.
pub open spec fn finished_login(
    form: LoginFormView,
    result: Result<SessionView, ServiceErrorView>,
) -> LoginOutcomeView {
    match result {
        Ok(session) => LoginOutcomeView::SignedIn { user_id: uuid_text(session.user.id.value) },
        Err(error) => LoginOutcomeView::Rejected {
            form: LoginFormView {
                email: form.email,
                email_error: None,
                password: form.password,
                password_error: Some(shown_failure(error)),
                csrf_token: form.csrf_token,
            },
        },
    }
}

/// Whether nothing is shown under a field.
pub fn blank(shown: &Option<String>) -> (yes: bool)
    ensures
        yes == is_blank(shown.deep_view()),
{
    match shown {
        None => true,
        Some(text) => text.as_str().is_empty(),
    }
}

impl LoginForm {
    /// Checks the address and the password.
    pub fn validate(&self) -> (res: Result<(), ValidationErrors>)
        ensures
            validation_view(res) == verdict_of(login_errors(self@)),
            res is Ok <==> email_well_formed(self@.email) && acceptable(self@.password),
    {
        proof {
            acceptable_passwords_pass("password"@, self@.password);
        }
        let mut errors = ValidationErrors::new();
        check_email(&mut errors, self.email.as_str());
        check_password(&mut errors, "password", self.password.as_str());
        errors.into_result()
    }
}

/// Answers the live validation of the form from what checking the form
/// found, with `csrf_token` as the token that the answer carries.
pub fn login_form_validated(
    data: LoginForm,
    validation: Result<(), ValidationErrors>,
    csrf_token: String,
) -> (form: LoginForm)
    ensures
        form@ == login_validated(data@, validation_view(validation), csrf_token@),
{
    match validation {
        Ok(_) => {
            let password_error = match data.password_error {
                Some(shown) => if contains_text(shown.as_str(), "Требования") {
                    None
                } else {
                    Some(shown)
                },
                None => None,
            };
            LoginForm {
                email: data.email,
                email_error: None,
                password: data.password,
                password_error,
                csrf_token,
            }
        },
        Err(errors) => {
            let mut email_error = None;
            let mut password_error = None;
            if errors.contains_key("email") && !data.email.as_str().is_empty() {
                email_error = Some(String::from_str("Введите корректный email"));
            }
            if errors.contains_key("password") && !data.password.as_str().is_empty() {
                password_error = Some(
                    String::from_str(
                        "Требования к паролю: Заглавная буква, цифра, спецсимвол, длина от 8 до 64 символов",
                    ),
                );
            }
            LoginForm {
                email: data.email,
                email_error,
                password: data.password,
                password_error,
                csrf_token,
            }
        },
    }
}

/// Answers the live validation of the form, with `csrf_token` as the token
/// that the answer carries.
pub fn login_form_validate(data: LoginForm, csrf_token: String) -> (form: LoginForm)
    ensures
        form@ == validated_login(data@, csrf_token@),
{
    let validation = data.validate();
    login_form_validated(data, validation, csrf_token)
}

/// Decides what a submission of the form leads to. `csrf_valid` says
/// whether the token of the form was the right one, `csrf_token` is the
/// fresh token for the answer.
pub fn login_form(
    form: LoginForm,
    csrf_valid: bool,
    csrf_token: String,
) -> (submission: LoginSubmission)
    ensures
        submission@ == submitted_login(form@, csrf_valid, csrf_token@),
{
    if !csrf_valid {
        return LoginSubmission::Rejected {
            form: LoginForm {
                email: form.email,
                email_error: Some(String::from_str("Invalid CSRF token")),
                password: form.password,
                password_error: None,
                csrf_token,
            },
        };
    }
    if blank(&form.email_error) && blank(&form.password_error) {
        let credentials = SignInRequest {
            email: form.email.clone(),
            password: form.password.clone(),
        };
        LoginSubmission::Attempt {
            credentials,
            form: LoginForm {
                email: form.email,
                email_error: form.email_error,
                password: form.password,
                password_error: form.password_error,
                csrf_token,
            },
        }
    } else {
        LoginSubmission::Rejected {
            form: LoginForm {
                email: form.email,
                email_error: form.email_error,
                password: form.password,
                password_error: form.password_error,
                csrf_token,
            },
        }
    }
}

/// Decides how a sign-in that was tried from the form ends.
pub fn login_form_result(
    form: LoginForm,
    result: Result<SignInResponse, UsersServiceError>,
) -> (outcome: LoginOutcome)
    ensures
        outcome@ == finished_login(form@, sign_in_view(result)),
{
    match result {
        Ok(res) => LoginOutcome::SignedIn { user_id: res.user.id.to_string() },
        Err(e) => {
            let shown = match e {
                UsersServiceError::WrongCredentials(err) => err,
                _ => e.to_string(),
            };
            LoginOutcome::Rejected {
                form: LoginForm {
                    email: form.email,
                    email_error: None,
                    password: form.password,
                    password_error: Some(shown),
                    csrf_token: form.csrf_token,
                },
            }
        },
    }
}

} // verus!
