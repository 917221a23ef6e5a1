pub mod dtos;
pub mod oauth;
pub mod services;
pub mod sponsor;
pub mod types;
