pub mod auth_provider;
pub mod image_repository;
pub mod receipt_repository;
pub mod session_repository;
pub mod user_repository;
