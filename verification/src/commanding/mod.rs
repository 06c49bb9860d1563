pub mod application;
pub mod domain;
pub mod status;
pub mod dispatcher;
pub mod gateway;
pub mod recorder;
pub mod sweep;
pub mod consumer;
pub mod storage;
