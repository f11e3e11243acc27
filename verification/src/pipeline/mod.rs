pub mod compiling;
pub mod msg_handling;
pub mod respondning;
pub mod running;
