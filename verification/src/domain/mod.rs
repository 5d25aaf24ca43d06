pub mod image;
pub mod receipt;
pub mod services;
pub mod use_cases;
