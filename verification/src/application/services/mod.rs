pub mod image_service;
pub mod user_service;
