//! Verified core of a small movie-catalog web service.
//!
//! The crate holds the service's rules as verified code: a credential store
//! (the `users` table) with register / login / logout transitions, the bcrypt
//! password hashing behind trusted wrappers, and the catalog transform that
//! rewrites relative image paths to absolute CDN URLs. The HTTP and database
//! plumbing around it lives outside the library and hands it plain values.

pub mod auth;
pub mod catalog;
pub mod crypto;
pub mod laws;
pub mod response;
pub mod store;
