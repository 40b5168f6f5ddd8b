//! Verified core of the markdown-to-pdf job service: job and status messages,
//! queue setup decisions, blob storage planning, digests and HTTP responses.

pub mod log;
pub mod response;
pub mod text;
pub mod id;
pub mod time;
pub mod job;
pub mod messages;
pub mod config;
pub mod queue;
pub mod result;
pub mod path;
pub mod storage;
pub mod service;
pub mod api;
pub mod consumer;
pub mod fairing;
pub mod broker;
