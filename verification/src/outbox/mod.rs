pub mod application;
pub mod consumer;
pub mod domain;
pub mod publisher;
pub mod recorder;
pub mod status;
pub mod storage;
pub mod sweep;
