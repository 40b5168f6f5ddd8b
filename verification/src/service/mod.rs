//! The job API: its messages and the decisions of its handlers.

pub mod handlers;
pub mod messages;
pub mod persist;
pub mod schema;
pub mod submit;
