//! Processing a receipt upload: the uploaded image is stored, the model
//! reads it, and the receipt it read is stored with the image's id.

use crate::application::errors::AppError;
use crate::application::ports::image_repository::{ImageRecord, ImageRepository};
use crate::application::ports::receipt_repository::{ReceiptRecord, ReceiptRepository};
use crate::application::types::{ImageId, UserId};
use crate::codec::base64_standard_encode;
use crate::domain::services::image_service::{FileUploadResult, ImageService};
use crate::domain::services::receipt_service::ReceiptService;
use vstd::prelude::*;

verus! {

/// Stores uploaded receipt images and the receipts read from them.
pub struct ReceiptScanner<S: ImageRepository, D: ReceiptRepository> {
    image_service: ImageService<S>,
    receipt_service: ReceiptService<D>,
}

/// A stored receipt image, ready to be read: its id and its content in
/// standard base64.
#[derive(Debug)]
pub struct StoredImage {
    pub image_id: ImageId,
    pub data_base64: String,
}

/// The image content in standard base64, as sent to the model and stored.
pub fn encode_image(data: &[u8]) -> (r: String)
    requires
        data@.len() <= isize::MAX,
    ensures
        r@ == crate::codec::base64_standard_encoding(data@),
        r@.len() == crate::codec::padded_encoded_len(data@.len()),
{
    proof {
        crate::codec::lemma_base64_text_len(data@, false, true);
    }
    base64_standard_encode(data)
}

impl<S: ImageRepository, D: ReceiptRepository> ReceiptScanner<S, D> {
    /// The stored images.
    pub closed spec fn images(&self) -> Map<i32, ImageRecord> {
        self.image_service.images()
    }

    /// The stored receipts.
    pub closed spec fn receipts(&self) -> Map<i32, ReceiptRecord> {
        self.receipt_service.receipts()
    }

    /// Both underlying repositories are consistent.
    pub closed spec fn well_formed(&self) -> bool {
        self.image_service.well_formed() && self.receipt_service.well_formed()
    }

    /// How many more images the image repository takes for certain.
    pub closed spec fn image_room(&self) -> nat {
        self.image_service.room()
    }

    /// How many more receipts the receipt repository takes for certain.
    pub closed spec fn receipt_room(&self) -> nat {
        self.receipt_service.room()
    }

    pub fn new(image_service: ImageService<S>, receipt_service: ReceiptService<D>) -> (r: Self)
        requires
            image_service.well_formed(),
            receipt_service.well_formed(),
        ensures
            r.well_formed(),
            r.images() == image_service.images(),
            r.receipts() == receipt_service.receipts(),
            r.image_room() == image_service.room(),
            r.receipt_room() == receipt_service.room(),
    {
        ReceiptScanner { image_service, receipt_service }
    }

    /// Stores the uploaded image of `user_id`, base64-encoded under its file
    /// name and content type; nothing is stored, and `None` returned, exactly
    /// when the upload held no file.
    pub fn store_receipt_image(&mut self, upload: FileUploadResult, user_id: &UserId) -> (r:
        Result<Option<StoredImage>, AppError>)
        requires
            old(self).well_formed(),
            upload.data matches Some(d) ==> d@.len() <= isize::MAX,
        ensures
            final(self).well_formed(),
            final(self).receipts() == old(self).receipts(),
            (r matches Ok(None)) <==> upload.data is None,
            upload.data is None ==> final(self).images() == old(self).images(),
            r matches Ok(Some(stored)) ==> (upload.data matches Some(d) && {
                &&& stored.data_base64@ == crate::codec::base64_standard_encoding(d@)
                &&& !old(self).images().contains_key(stored.image_id.0)
                &&& final(self).images() == old(self).images().insert(
                    stored.image_id.0,
                    ImageRecord {
                        user_id: user_id.0,
                        file_name: upload.file_name@,
                        content_type: upload.content_type@,
                        data_base64: stored.data_base64@,
                    },
                )
            }),
            r is Err ==> final(self).images() == old(self).images(),
            r matches Err(e) ==> e is SQL,
            upload.data is Some && old(self).image_room() > 0 ==> (r matches Ok(Some(_))),
            final(self).image_room() + 1 >= old(self).image_room(),
            final(self).receipt_room() == old(self).receipt_room(),
    {
        match upload.data {
            Some(data) => {
                let b64 = encode_image(data.as_slice());
                let image_id = self.image_service.create_image(
                    user_id,
                    upload.file_name.as_str(),
                    upload.content_type.as_str(),
                    b64.as_str(),
                )?;
                Ok(Some(StoredImage { image_id, data_base64: b64 }))
            },
            None => Ok(None),
        }
    }

    /// Stores the JSON rendering of the receipt read from a stored image and
    /// hands it back.
    pub fn store_receipt(&mut self, image_id: &ImageId, receipt_json: String) -> (r: Result<
        String,
        AppError,
    >)
        requires
            old(self).well_formed(),
        ensures
            final(self).well_formed(),
            final(self).images() == old(self).images(),
            r matches Ok(json) ==> {
                &&& json@ == receipt_json@
                &&& exists|id: i32|
                    !old(self).receipts().contains_key(id) && final(self).receipts() == old(
                        self,
                    ).receipts().insert(id, ReceiptRecord { image_id: image_id.0, json: receipt_json@ })
            },
            r is Err ==> final(self).receipts() == old(self).receipts(),
            r matches Err(e) ==> e is SQL,
            old(self).receipt_room() > 0 ==> r is Ok,
            final(self).receipt_room() + 1 >= old(self).receipt_room(),
            final(self).image_room() == old(self).image_room(),
    {
        let id = self.receipt_service.create_receipt(image_id, receipt_json.as_str())?;
        assert(!old(self).receipts().contains_key(id.0));
        Ok(receipt_json)
    }
}

} // verus!
