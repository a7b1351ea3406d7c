//! The decision logic of the request handlers: everything a handler
//! computes or decides between its store and I/O calls.

pub mod admin;
pub mod audit;
pub mod auth;
pub mod image;
pub mod services;
