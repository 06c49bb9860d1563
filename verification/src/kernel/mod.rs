pub mod registry;
pub mod application;
pub mod validation;
pub mod state;
