pub mod pipeline;
pub mod traits;
