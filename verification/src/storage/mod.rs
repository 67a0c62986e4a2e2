pub mod condition;
pub mod conversation;
pub mod laws;
pub mod listing;
pub mod sql;
