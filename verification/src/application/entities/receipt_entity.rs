use crate::application::types::{ImageId, ReceiptId};
use vstd::prelude::*;

verus! {

/// A scanned receipt: the image it was read from and its JSON rendering.
#[derive(Clone, Debug)]
pub struct ReceiptEntity {
    pub id: ReceiptId,
    pub image_id: ImageId,
    pub json: String,
}

} // verus!
