pub mod basic;
pub mod errors;
pub mod stubs;
