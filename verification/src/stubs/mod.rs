pub mod compiler;
pub mod runner;
