pub mod auth_middleware;
