pub mod config;
pub mod constance;
pub mod response;
pub mod state;
pub mod user;
