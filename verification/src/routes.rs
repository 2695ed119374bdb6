//! The handlers of the endpoints: each takes what the framework decoded from
//! a request, calls the extractor and the store, and returns what is sent
//! back, or the failure that the response mapper turns into a reply.

pub mod answer;
pub mod question;
