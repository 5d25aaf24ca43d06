pub mod entities;
pub mod errors;
pub mod ports;
pub mod services;
pub mod types;
pub mod usecases;
