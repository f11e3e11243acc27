pub mod mappers;
pub mod models;
