//! Credential lifecycle core for a small account platform.
//!
//! The library owns the user directory model and the five account
//! operations: signup, login, password-reset request, password reset and
//! password change. Every operation works on an exclusively borrowed
//! in-memory directory snapshot; the caller loads the snapshot from durable
//! storage before an operation and writes it back afterwards, holding the
//! borrow for the whole load-mutate-save sequence so that no two mutations
//! can race.
//!
//! Password hashing (bcrypt), token signing (JWT) and random token
//! generation are performed by outside crates behind trusted wrappers; the
//! logic around them is verified.

pub mod change_password;
pub mod compile_code;
pub mod hashing;
pub mod login;
pub mod model;
pub mod reset_password;
pub mod send_email;
pub mod signup;
pub mod smtp_config;
pub mod text;
pub mod token;
