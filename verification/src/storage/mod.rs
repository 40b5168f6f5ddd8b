//! Blob storage: where blobs go, and the steps of storing, deleting and
//! locating them.

pub mod blob_storage;
pub mod digest;
pub mod disk_storage;
