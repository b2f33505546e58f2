//! Core rules of a double-entry accounting engine: validation of incoming
//! requests, the balance check on journal entries, and the decisions that
//! shape the replies of the HTTP service.

pub mod text;
pub mod money;
pub mod requests;
pub mod responses;
pub mod reply;
pub mod posting;
pub mod seeding;
