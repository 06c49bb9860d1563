pub mod application;
pub mod consumer;
pub mod dispatcher;
pub mod domain;
pub mod gateway;
pub mod recorder;
pub mod status;
pub mod storage;
pub mod sweep;
