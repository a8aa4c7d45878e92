//! Credential-and-session authority: password hashing, signed session
//! tokens, session-cookie extraction, anti-forgery tokens and role-gated
//! access decisions.

pub mod access_control;
pub mod cookies;
pub mod csrf;
pub mod password;
pub mod records;
pub mod roles;
pub mod session;
pub mod text;
pub mod token;
