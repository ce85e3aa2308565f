//! The registration form: its live validation, and what a submission leads
//! to.

use vstd::prelude::*;
use crate::models::password::{
    acceptable, acceptable_passwords_pass, check_password, password_errors,
};
use crate::models::user::{uuid_text, NewAccountView, SessionView, SignUpRequest, SignUpResponse};
use crate::router::pages::login::{blank, email_hint, is_blank, password_hint};
use crate::services::errors::{ServiceErrorView, UsersServiceError};
use crate::text::{clone_text, contains_text, is_substring};
use crate::validation::{
    check_email, email_errors, email_well_formed, names_field, validation_view, verdict_of,
    FieldErrorView, ValidationErrors,
};

verus! {

/// What the form says under a name that another user has.
pub open spec fn username_taken_hint() -> Seq<char> {
    "Имя пользователя уже занято"@
}

/// What the form says under an address that another user has.
pub open spec fn email_taken_hint() -> Seq<char> {
    "Почта уже зарегистрирована"@
}

/// What the form says under two passwords that differ.
pub open spec fn mismatch_hint() -> Seq<char> {
    "Пароли не совпадают"@
}

/// The registration form as it travels between browser and server.
#[derive(Debug, Clone, PartialEq, Eq)]
pub struct SignupForm {
    pub username: String,
    pub username_error: Option<String>,
    pub email: String,
    pub email_error: Option<String>,
    pub password: String,
    pub confirm_password: String,
    pub password_error: Option<String>,
    pub first_name: Option<String>,
    pub last_name: Option<String>,
    pub bio: Option<String>,
    pub csrf_token: String,
}

/// The mathematical content of a [`SignupForm`].
pub ghost struct SignupFormView {
    pub username: Seq<char>,
    pub username_error: Option<Seq<char>>,
    pub email: Seq<char>,
    pub email_error: Option<Seq<char>>,
    pub password: Seq<char>,
    pub confirm_password: Seq<char>,
    pub password_error: Option<Seq<char>>,
    pub first_name: Option<Seq<char>>,
    pub last_name: Option<Seq<char>>,
    pub bio: Option<Seq<char>>,
    pub csrf_token: Seq<char>,
}

impl View for SignupForm {
    type V = SignupFormView;

    open spec fn view(&self) -> SignupFormView {
        SignupFormView {
            username: self.username@,
            username_error: self.username_error.deep_view(),
            email: self.email@,
            email_error: self.email_error.deep_view(),
            password: self.password@,
            confirm_password: self.confirm_password@,
            password_error: self.password_error.deep_view(),
            first_name: self.first_name.deep_view(),
            last_name: self.last_name.deep_view(),
            bio: self.bio.deep_view(),
            csrf_token: self.csrf_token@,
        }
    }
}

impl Default for SignupForm {
    /// The empty form.
    fn default() -> (form: Self)
        ensures
            form@ == blank_signup(),
    {
        SignupForm {
            username: String::new(),
            username_error: None,
            email: String::new(),
            email_error: None,
            password: String::new(),
            confirm_password: String::new(),
            password_error: None,
            first_name: None,
            last_name: None,
            bio: None,
            csrf_token: String::new(),
        }
    }
}

/// The empty form.
pub open spec fn blank_signup() -> SignupFormView {
    SignupFormView {
        username: Seq::empty(),
        username_error: None,
        email: Seq::empty(),
        email_error: None,
        password: Seq::empty(),
        confirm_password: Seq::empty(),
        password_error: None,
        first_name: None,
        last_name: None,
        bio: None,
        csrf_token: Seq::empty(),
    }
}

/// What a request for the page is answered with: a visitor who is signed in
/// is sent on to the start page, any other is shown the empty form with the
/// token `csrf_token`.
pub open spec fn signup_page(signed_in: bool, csrf_token: Seq<char>) -> Option<SignupFormView> {
    if signed_in {
        None
    } else {
        Some(SignupFormView { csrf_token, ..blank_signup() })
    }
}

/// The mathematical content of a form that may be absent.
pub open spec fn shown_view(form: Option<SignupForm>) -> Option<SignupFormView> {
    match form {
        Some(f) => Some(f@),
        None => None,
    }
}

/// Answers a request for the page: `None` sends the visitor, who is signed
/// in, on to the start page; `Some` is the form to show.
pub fn page(signed_in: bool, csrf_token: String) -> (shown: Option<SignupForm>)
    ensures
        shown_view(shown) == signup_page(signed_in, csrf_token@),
{
    if signed_in {
        return None;
    }
    let mut form = SignupForm::default();
    form.csrf_token = csrf_token;
    Some(form)
}

/// The failures that checking the form finds: those of the address, those
/// of the password, and those of its repetition.
pub open spec fn signup_errors(form: SignupFormView) -> Seq<FieldErrorView> {
    email_errors(form.email) + password_errors("password"@, form.password) + password_errors(
        "confirm_password"@,
        form.confirm_password,
    )
}

impl SignupForm {
    /// Checks the address, the password and its repetition.
    pub fn validate(&self) -> (res: Result<(), ValidationErrors>)
        ensures
            validation_view(res) == verdict_of(signup_errors(self@)),
            res is Ok <==> email_well_formed(self@.email) && acceptable(self@.password)
                && acceptable(self@.confirm_password),
    {
        proof {
            acceptable_passwords_pass("password"@, self@.password);
            acceptable_passwords_pass("confirm_password"@, self@.confirm_password);
        }
        let mut errors = ValidationErrors::new();
        check_email(&mut errors, self.email.as_str());
        check_password(&mut errors, "password", self.password.as_str());
        check_password(&mut errors, "confirm_password", self.confirm_password.as_str());
        errors.into_result()
    }

    /// Whether the live validation has a name to look up.
    pub fn needs_username_check(&self) -> (yes: bool)
        ensures
            yes == (self@.username.len() > 0),
    {
        !self.username.as_str().is_empty()
    }
}

/// What the browser is told to show under the fields of the form; an empty
/// text clears what is shown.
#[derive(Debug, Clone, PartialEq, Eq)]
pub struct FormErrors {
    pub username_error: String,
    pub email_error: String,
    pub password_error: String,
}

/// The mathematical content of a [`FormErrors`].
pub ghost struct FormErrorsView {
    pub username_error: Seq<char>,
    pub email_error: Seq<char>,
    pub password_error: Seq<char>,
}

impl View for FormErrors {
    type V = FormErrorsView;

    open spec fn view(&self) -> FormErrorsView {
        FormErrorsView {
            username_error: self.username_error@,
            email_error: self.email_error@,
            password_error: self.password_error@,
        }
    }
}

/// Nothing shown under any field.
pub open spec fn no_errors() -> FormErrorsView {
    FormErrorsView {
        username_error: Seq::empty(),
        email_error: Seq::empty(),
        password_error: Seq::empty(),
    }
}

impl Default for FormErrors {
    /// Nothing shown under any field.
    fn default() -> (errors: Self)
        ensures
            errors@ == no_errors(),
    {
        FormErrors {
            username_error: String::new(),
            email_error: String::new(),
            password_error: String::new(),
        }
    }
}

/// What is shown under the name: that it is taken, where the form names one
/// and the lookup found it; nothing else.
pub open spec fn username_shown(form: SignupFormView, username_exists: bool) -> Seq<char> {
    if form.username.len() > 0 && username_exists {
        username_taken_hint()
    } else {
        Seq::empty()
    }
}

/// What the live validation shows in the end, given what checking the form
/// found. A form that fails the checks gets a hint under each failing field
/// that is filled in; one that passes them but whose two passwords differ is
/// told so.
pub open spec fn signup_shown(
    form: SignupFormView,
    validation: Result<(), Seq<FieldErrorView>>,
    username_exists: bool,
) -> FormErrorsView {
    let username_error = username_shown(form, username_exists);
    match validation {
        Err(errors) => FormErrorsView {
            username_error,
            email_error: if names_field(errors, "email"@) && form.email.len() > 0 {
                email_hint()
            } else {
                Seq::empty()
            },
            password_error: if (names_field(errors, "password"@) && form.password.len() > 0) || (
            names_field(errors, "confirm_password"@) && form.confirm_password.len() > 0) {
                password_hint()
            } else {
                Seq::empty()
            },
        },
        Ok(()) => if form.password.len() > 0 && form.confirm_password.len() > 0 && form.password
            != form.confirm_password {
            FormErrorsView {
                username_error,
                email_error: Seq::empty(),
                password_error: mismatch_hint(),
            }
        } else {
            FormErrorsView {
                username_error,
                email_error: Seq::empty(),
                password_error: Seq::empty(),
            }
        },
    }
}

/// What the live validation sends, in order, given what checking the form
/// found: where the form names a user, first what the lookup of the name
/// says; then what the checks say.
pub open spec fn signup_patches(
    form: SignupFormView,
    validation: Result<(), Seq<FieldErrorView>>,
    username_exists: bool,
) -> Seq<FormErrorsView> {
    let last = signup_shown(form, validation, username_exists);
    if form.username.len() > 0 {
        seq![
            FormErrorsView {
                username_error: username_shown(form, username_exists),
                email_error: Seq::empty(),
                password_error: Seq::empty(),
            },
            last,
        ]
    } else {
        seq![last]
    }
}

/// What the live validation sends, in order.
pub open spec fn validation_patches(form: SignupFormView, username_exists: bool) -> Seq<
    FormErrorsView,
> {
    signup_patches(form, verdict_of(signup_errors(form)), username_exists)
}

/// The contents of a list of patches, in order.
pub open spec fn patch_views(patches: Seq<FormErrors>) -> Seq<FormErrorsView> {
    patches.map_values(|p: FormErrors| p@)
}

/// Answers the live validation of the form from what checking the form
/// found. `username_exists` is what the lookup of the name said; it has no
/// part in the answer where the form names no user.
pub fn signup_form_validated(
    data: &SignupForm,
    validation: Result<(), ValidationErrors>,
    username_exists: bool,
) -> (patches: Vec<FormErrors>)
    ensures
        patch_views(patches@) == signup_patches(
            data@,
            validation_view(validation),
            username_exists,
        ),
{
    let mut patches: Vec<FormErrors> = Vec::new();
    let mut username_error = String::new();
    if !data.username.as_str().is_empty() {
        if username_exists {
            username_error = String::from_str("Имя пользователя уже занято");
        }
        patches.push(
            FormErrors {
                username_error: username_error.clone(),
                email_error: String::new(),
                password_error: String::new(),
            },
        );
    }
    let mut email_error = String::new();
    let mut password_error = String::new();
    match validation {
        Err(err) => {
            if err.contains_key("email") && !data.email.as_str().is_empty() {
                email_error = String::from_str("Введите корректный email");
            }
            if (err.contains_key("password") && !data.password.as_str().is_empty()) || (
            err.contains_key("confirm_password") && !data.confirm_password.as_str().is_empty()) {
                password_error =
                String::from_str(
                    "Требования к паролю: Заглавная буква, цифра, спецсимвол, длина от 8 до 64 символов",
                );
            }
        },
        Ok(_) => {
            if !data.password.as_str().is_empty() && !data.confirm_password.as_str().is_empty()
                && !(data.password == data.confirm_password) {
                password_error = String::from_str("Пароли не совпадают");
            }
        },
    }
    patches.push(FormErrors { username_error, email_error, password_error });
    assert(patch_views(patches@) =~= signup_patches(
        data@,
        validation_view(validation),
        username_exists,
    ));
    patches
}

/// Answers the live validation of the form. `username_exists` is what the
/// lookup of the name said; it has no part in the answer where the form
/// names no user.
pub fn signup_form_validate(data: &SignupForm, username_exists: bool) -> (patches: Vec<FormErrors>)
    ensures
        patch_views(patches@) == validation_patches(data@, username_exists),
{
    let validation = data.validate();
    signup_form_validated(data, validation, username_exists)
}

/// Answers a reset of the form: nothing shown under any field.
pub fn signup_form_reset() -> (errors: FormErrors)
    ensures
        errors@ == no_errors(),
{
    FormErrors::default()
}

/// What a submission of the form leads to before the service is asked.
#[derive(Debug, Clone, PartialEq, Eq)]
pub enum SignupSubmission {
    /// The form goes back to the browser as given here.
    Rejected { form: SignupForm },
    /// A registration is to be tried with this request.
    Attempt { request: SignUpRequest, form: SignupForm },
}

/// The mathematical content of a [`SignupSubmission`].
pub ghost enum SignupSubmissionView {
    Rejected { form: SignupFormView },
    Attempt { request: NewAccountView, form: SignupFormView },
}

impl View for SignupSubmission {
    type V = SignupSubmissionView;

    open spec fn view(&self) -> SignupSubmissionView {
        match self {
            SignupSubmission::Rejected { form } => SignupSubmissionView::Rejected { form: form@ },
            SignupSubmission::Attempt { request, form } => SignupSubmissionView::Attempt {
                request: request@,
                form: form@,
            },
        }
    }
}

/// The request that registers what the form holds.
pub open spec fn request_of(form: SignupFormView) -> NewAccountView {
    NewAccountView {
        username: form.username,
        email: form.email,
        password: form.password,
        first_name: form.first_name,
        last_name: form.last_name,
        bio: form.bio,
    }
}

/// What a submission leads to: with a bad anti-forgery token the form goes
/// back as it came, saying so under the name; a form that shows a hint under
/// the address or the password goes back with the fresh token; any other is
/// tried.
pub open spec fn submitted_signup(
    form: SignupFormView,
    csrf_valid: bool,
    csrf_token: Seq<char>,
) -> SignupSubmissionView {
    if !csrf_valid {
        SignupSubmissionView::Rejected {
            form: SignupFormView { username_error: Some("wrong csrf"@), ..form },
        }
    } else if is_blank(form.email_error) && is_blank(form.password_error) {
        SignupSubmissionView::Attempt {
            request: request_of(form),
            form: SignupFormView { csrf_token, ..form },
        }
    } else {
        SignupSubmissionView::Rejected { form: SignupFormView { csrf_token, ..form } }
    }
}

/// How a registration that was tried from the form ends.
#[derive(Debug, Clone, PartialEq, Eq)]
pub enum SignupOutcome {
    /// The new user with this identifier is signed in and sent to the start
    /// page.
    SignedIn { user_id: String },
    /// The form goes back to the browser as given here.
    Rejected { form: SignupForm },
}

/// The mathematical content of a [`SignupOutcome`].
pub ghost enum SignupOutcomeView {
    SignedIn { user_id: Seq<char> },
    Rejected { form: SignupFormView },
}

impl View for SignupOutcome {
    type V = SignupOutcomeView;

    open spec fn view(&self) -> SignupOutcomeView {
        match self {
            SignupOutcome::SignedIn { user_id } => SignupOutcomeView::SignedIn {
                user_id: user_id@,
            },
            SignupOutcome::Rejected { form } => SignupOutcomeView::Rejected { form: form@ },
        }
    }
}

/// The mathematical content of the result of a registration.
pub open spec fn sign_up_view(result: Result<SignUpResponse, UsersServiceError>) -> Result<
    SessionView,
    ServiceErrorView,
> {
    match result {
        Ok(session) => Ok(session@),
        Err(e) => Err(e@),
    }
}

/// The form as it goes back after a registration that failed with an error
/// that reads as `shown`: it says under the address that it is taken where
/// the error speaks of something that already exists, and shows the error
/// under the name otherwise.
pub open spec fn signup_failed(form: SignupFormView, shown: Seq<char>) -> SignupFormView {
    if is_substring("already exists"@, shown) {
        SignupFormView { email_error: Some(email_taken_hint()), ..form }
    } else {
        SignupFormView { username_error: Some(shown), ..form }
    }
}

/// How a registration that was tried from the form ends: the new user is
/// signed in, or the form goes back with the failure.
pub open spec fn finished_signup(
    form: SignupFormView,
    result: Result<SessionView, ServiceErrorView>,
) -> SignupOutcomeView {
    match result {
        Ok(session) => SignupOutcomeView::SignedIn { user_id: uuid_text(session.user.id.value) },
        Err(error) => SignupOutcomeView::Rejected { form: signup_failed(form, error.rendered()) },
    }
}

/// Decides what a submission of the form leads to. `csrf_valid` says
/// whether the token of the form was the right one; `csrf_token` is the
/// fresh token for the answer, and is looked at only where the token of
/// the form was right.
pub fn signup_form(
    form: SignupForm,
    csrf_valid: bool,
    csrf_token: String,
) -> (submission: SignupSubmission)
    ensures
        submission@ == submitted_signup(form@, csrf_valid, csrf_token@),
{
    if !csrf_valid {
        let mut nf = form;
        nf.username_error = Some(String::from_str("wrong csrf"));
        return SignupSubmission::Rejected { form: nf };
    }
    if blank(&form.email_error) && blank(&form.password_error) {
        let request = SignUpRequest {
            username: form.username.clone(),
            email: form.email.clone(),
            password: form.password.clone(),
            first_name: clone_text(&form.first_name),
            last_name: clone_text(&form.last_name),
            bio: clone_text(&form.bio),
        };
        let mut nf = form;
        nf.csrf_token = csrf_token;
        SignupSubmission::Attempt { request, form: nf }
    } else {
        let mut nf = form;
        nf.csrf_token = csrf_token;
        SignupSubmission::Rejected { form: nf }
    }
}

/// Makes the form that goes back after a registration that failed with an
/// error that reads as `shown`.
pub fn signup_form_failed(form: SignupForm, shown: String) -> (answer: SignupForm)
    ensures
        answer@ == signup_failed(form@, shown@),
{
    let mut nf = form;
    if contains_text(shown.as_str(), "already exists") {
        nf.email_error = Some(String::from_str("Почта уже зарегистрирована"));
    } else {
        nf.username_error = Some(shown);
    }
    nf
}

/// Decides how a registration that was tried from the form ends.
pub fn signup_form_result(
    form: SignupForm,
    result: Result<SignUpResponse, UsersServiceError>,
) -> (outcome: SignupOutcome)
    ensures
        outcome@ == finished_signup(form@, sign_up_view(result)),
{
    match result {
        Ok(res) => SignupOutcome::SignedIn { user_id: res.user.id.to_string() },
        Err(e) => SignupOutcome::Rejected { form: signup_form_failed(form, e.to_string()) },
    }
}

} // verus!
