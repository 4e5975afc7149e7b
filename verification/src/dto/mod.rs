pub mod auth_dto;
