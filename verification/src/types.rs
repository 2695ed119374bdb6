//! The records of the service and the pagination of their listing.

pub mod answer;
pub mod pagination;
pub mod question;
