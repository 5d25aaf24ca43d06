pub mod image_entity;
pub mod receipt_entity;
pub mod session_entity;
pub mod user_entity;
