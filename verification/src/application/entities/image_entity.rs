use crate::application::types::{ImageId, UserId};
use vstd::prelude::*;

verus! {

/// A stored image: its owner, original file name, detected MIME type and
/// base64-encoded content.
#[derive(Clone, Debug)]
pub struct ImageEntity {
    pub id: ImageId,
    pub user_id: UserId,
    pub file_name: String,
    pub content_type: String,
    pub data_base64: String,
}

} // verus!
