pub mod mappers;
pub mod models;
pub mod services;
