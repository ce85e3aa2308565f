//! The pages with forms.

pub mod login;
pub mod signup;

pub use login::LoginForm;
pub use signup::SignupForm;
