pub mod basic;
pub mod traits;
