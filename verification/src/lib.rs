pub mod commanding;
pub mod eventing;
pub mod inbox;
pub mod lifecycle;
pub mod outbox;
pub mod support;
pub mod kernel;
pub mod test_app;
