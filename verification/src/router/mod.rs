//! The HTML surface: what the sign-in and registration forms answer.

pub mod pages;
