//! Request-to-query logic of two small book services: an inventory of books
//! and a register of rater scores.
pub mod clock;
pub mod fields;
pub mod inventory;
pub mod query;
pub mod reviews;
