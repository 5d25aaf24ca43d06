pub mod image_service;
pub mod receipt_service;
pub mod session_service;
