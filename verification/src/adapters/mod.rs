pub mod memory;
pub mod http;
