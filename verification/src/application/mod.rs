pub mod booking;
pub mod commands;
pub mod dto;
pub mod errors;
pub mod queries;
pub mod refund;
