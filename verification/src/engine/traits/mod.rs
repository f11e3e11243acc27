pub mod compiler;
pub mod executor;
pub mod runner;
