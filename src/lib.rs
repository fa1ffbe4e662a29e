//! Request handling and data access for a question-and-answer service.
//!
//! The relational store is driven from outside the library: each data-access
//! operation is split into a verified step that decides what to ask the store
//! (or rejects the request before the store is reached) and a verified step
//! that turns the store's reply into a domain result.

pub mod models;
pub mod ids;
pub mod store;
pub mod questions_dao;
pub mod answers_dao;
pub mod handlers;
pub mod laws;
