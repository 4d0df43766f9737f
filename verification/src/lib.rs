//! The customer application of Fiducia.
//!
//! The library decides: which requests are let through, what each step of the sign-in flow asks
//! for next, which cookies and pages answer it, what the portal shows, and which statements
//! reach the database. It performs no input or output of its own.

pub mod auth_pages;
pub mod cookies;
pub mod headers;
pub mod html;
pub mod login;
pub mod login_laws;
pub mod login_responses;
pub mod login_steps;
pub mod mfa;
pub mod mfa_laws;
pub mod orgs;
pub mod origin;
pub mod page_laws;
pub mod portal;
pub mod portal_laws;
pub mod request_cookies;
pub mod request_security;
pub mod response;
pub mod sign_in_laws;
pub mod store;
pub mod streaming;
pub mod table_laws;
pub mod tables;
pub mod text;
pub mod text_laws;
pub mod tokens;
pub mod view_laws;
