//! The first version of the API: jobs uploaded with a stylesheet and
//! persisted under a bundle directory.

pub mod files;
pub mod messages;
