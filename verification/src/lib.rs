//! The core of a small question-and-answer service: the store of questions
//! and answers, the reading of pagination parameters from a query, and the
//! mapping of every failure to a status and a body.

pub mod error;
pub mod number;
pub mod params;
pub mod reply;
pub mod routes;
pub mod store;
pub mod types;
