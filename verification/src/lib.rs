pub mod clock;
pub mod compiler;
pub mod domain;
pub mod engine;
pub mod grpc;
pub mod host;
pub mod ident;
pub mod models;
pub mod native;
pub mod peak_memory_usage;
pub mod pipeline;
pub mod runner;
pub mod service_example;
pub mod stubs;
pub mod text;
