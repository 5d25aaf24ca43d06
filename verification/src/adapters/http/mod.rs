pub mod cookie_util;
pub mod cors;
pub mod handler;
