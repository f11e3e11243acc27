pub mod compiling;
pub mod running;
