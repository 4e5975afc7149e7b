pub mod auth_handler;
pub mod auth_inner_handler;
pub mod default_handler;
