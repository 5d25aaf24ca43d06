//! Receipts read from uploaded images, stored over a receipt repository.

use crate::application::errors::AppError;
use crate::application::ports::receipt_repository::{ReceiptRecord, ReceiptRepository};
use crate::application::types::{ImageId, ReceiptId};
use vstd::prelude::*;

verus! {

/// Receipt operations over a receipt repository.
pub struct ReceiptService<D: ReceiptRepository> {
    receipt_repo: D,
}

/// Announces that an image was stored.
#[derive(Clone, Debug)]
pub struct ImageUploadedEvent {
    image_id: ImageId,
}

impl<D: ReceiptRepository> ReceiptService<D> {
    /// The receipts stored in the underlying repository.
    pub closed spec fn receipts(&self) -> Map<i32, ReceiptRecord> {
        self.receipt_repo.receipts()
    }

    /// The underlying repository is consistent.
    pub closed spec fn well_formed(&self) -> bool {
        self.receipt_repo.well_formed()
    }

    /// How many more receipts the underlying repository takes for certain.
    pub closed spec fn room(&self) -> nat {
        self.receipt_repo.room()
    }

    pub fn new(receipt_repo: D) -> (r: Self)
        requires
            receipt_repo.well_formed(),
        ensures
            r.well_formed(),
            r.receipts() == receipt_repo.receipts(),
            r.room() == receipt_repo.room(),
    {
        ReceiptService { receipt_repo }
    }

    /// Stores the JSON rendering of the receipt read from an image and
    /// returns its fresh id.
    pub fn create_receipt(&mut self, image_id: &ImageId, json: &str) -> (r: Result<ReceiptId, AppError>)
        requires
            old(self).well_formed(),
        ensures
            final(self).well_formed(),
            r matches Ok(id) ==> {
                &&& !old(self).receipts().contains_key(id.0)
                &&& final(self).receipts() == old(self).receipts().insert(
                    id.0,
                    ReceiptRecord { image_id: image_id.0, json: json@ },
                )
            },
            r is Err ==> final(self).receipts() == old(self).receipts(),
            r matches Err(e) ==> e is SQL,
            old(self).room() > 0 ==> r is Ok,
            r is Ok ==> final(self).room() + 1 >= old(self).room(),
            r is Err ==> final(self).room() == old(self).room(),
    {
        self.receipt_repo.create(image_id, json)
    }
}

} // verus!
