//! A recipe-tracking service: the records it keeps, the rules of its
//! record store, the decisions of its request handlers, its image upload
//! and its cross-origin policy.

pub mod recipe;
pub mod error;
pub mod table;
pub mod api;
pub mod upload;
pub mod cors;
