//! Storage of scanned receipts.

use crate::application::errors::AppError;
use crate::application::types::{ImageId, ReceiptId};
use vstd::prelude::*;

verus! {

/// What is stored for one receipt id.
pub ghost struct ReceiptRecord {
    pub image_id: i32,
    pub json: Seq<char>,
}

/// Where receipts are kept; a failed write leaves the stored receipts as
/// they were, and every failure is a storage (`SQL`) error.
pub trait ReceiptRepository {
    /// The stored receipts, by id.
    spec fn receipts(&self) -> Map<i32, ReceiptRecord>;

    /// The repository's own consistency condition, kept by every operation.
    spec fn well_formed(&self) -> bool;

    /// How many more receipts the store takes for certain: a write succeeds
    /// while this is positive, and each stored receipt uses up at most one.
    spec fn room(&self) -> nat;

    /// Stores the receipt read from an image and returns its fresh id.
    fn create(&mut self, image_id: &ImageId, json: &str) -> (r: Result<ReceiptId, AppError>)
        requires
            old(self).well_formed(),
        ensures
            final(self).well_formed(),
            r matches Ok(id) ==> {
                &&& !old(self).receipts().contains_key(id.0)
                &&& final(self).receipts() == old(self).receipts().insert(
                    id.0,
                    ReceiptRecord { image_id: image_id.0, json: json@ },
                )
            },
            r is Err ==> final(self).receipts() == old(self).receipts(),
            r matches Err(e) ==> e is SQL,
            old(self).room() > 0 ==> r is Ok,
            r is Ok ==> final(self).room() + 1 >= old(self).room(),
            r is Err ==> final(self).room() == old(self).room(),
    ;
}

} // verus!
