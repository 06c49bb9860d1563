pub mod application;
pub mod domain;
pub mod status;
pub mod recorder;
pub mod consumer;
pub mod sweep;
pub mod storage;
pub mod amqp;
pub mod worker;
pub mod publisher;
