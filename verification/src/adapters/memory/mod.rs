pub mod in_memory_session_repo;
pub mod in_memory_user_repo;
pub mod in_memory_image_repo;
pub mod in_memory_receipt_repo;
