//! Role-based access control for an HTTP service.
//!
//! A request carries a signed, expiring credential that names its bearer
//! and the bearer's roles. The guard in `config::auth_middleware` takes the
//! credential from the request, has `util::token_util` validate it, and has
//! `service::auth_service` decide from the permission table in
//! `model::state` whether one of the roles is granted the requested path.
//! Every function of the library is verified against its contract; calls
//! into other crates are confined to small functions marked
//! `external_body` and to `assume_specification` items, whose contracts are
//! believed rather than proved.

pub mod config;
pub mod dto;
pub mod handler;
pub mod model;
pub mod service;
pub mod util;
