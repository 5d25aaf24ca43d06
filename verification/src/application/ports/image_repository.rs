//! Storage of uploaded images.

use crate::application::entities::image_entity::ImageEntity;
use crate::application::errors::AppError;
use crate::application::types::{ImageId, UserId};
use vstd::prelude::*;

verus! {

/// What is stored for one image id.
pub ghost struct ImageRecord {
    pub user_id: i32,
    pub file_name: Seq<char>,
    pub content_type: Seq<char>,
    pub data_base64: Seq<char>,
}

/// `e` is the stored image of its id.
pub open spec fn image_matches(images: Map<i32, ImageRecord>, e: ImageEntity) -> bool {
    &&& images.contains_key(e.id.0)
    &&& images[e.id.0].user_id == e.user_id.0
    &&& images[e.id.0].file_name == e.file_name@
    &&& images[e.id.0].content_type == e.content_type@
    &&& images[e.id.0].data_base64 == e.data_base64@
}

/// `found` lists every stored image of `user_id` exactly once, in any order.
pub open spec fn images_of_user(
    images: Map<i32, ImageRecord>,
    user_id: i32,
    found: Seq<ImageEntity>,
) -> bool {
    &&& forall|i: int| 0 <= i < found.len() ==> image_matches(images, #[trigger] found[i])
    &&& forall|i: int| 0 <= i < found.len() ==> (#[trigger] found[i]).user_id.0 == user_id
    &&& forall|i: int, j: int|
        0 <= i < found.len() && 0 <= j < found.len() && i != j ==> (#[trigger] found[i]).id
            != (#[trigger] found[j]).id
    &&& forall|k: i32|
        images.contains_key(k) && (#[trigger] images[k]).user_id == user_id ==> exists|i: int|
            0 <= i < found.len() && (#[trigger] found[i]).id.0 == k
}

/// A stored image is listed among its owner's images, with what was
/// stored for it.
pub proof fn created_image_is_listed(
    images: Map<i32, ImageRecord>,
    id: i32,
    record: ImageRecord,
    found: Seq<ImageEntity>,
)
    requires
        images_of_user(images.insert(id, record), record.user_id, found),
    ensures
        exists|i: int|
            0 <= i < found.len() && (#[trigger] found[i]).id.0 == id && found[i].file_name@
                == record.file_name && found[i].content_type@ == record.content_type
                && found[i].data_base64@ == record.data_base64,
{
    let m = images.insert(id, record);
    assert(m.contains_key(id) && m[id].user_id == record.user_id);
    let i = choose|i: int| 0 <= i < found.len() && (#[trigger] found[i]).id.0 == id;
    assert(image_matches(m, found[i]));
}

/// An image is listed only for its owner.
pub proof fn listed_images_belong_to_user(
    images: Map<i32, ImageRecord>,
    user_id: i32,
    found: Seq<ImageEntity>,
    i: int,
)
    requires
        images_of_user(images, user_id, found),
        0 <= i < found.len(),
    ensures
        images.contains_key(found[i].id.0),
        images[found[i].id.0].user_id == user_id,
{
    assert(image_matches(images, found[i]));
}

/// Where images are kept; a failed write leaves the stored images as they
/// were, and every failure is a storage (`SQL`) error.
pub trait ImageRepository {
    /// The stored images, by id.
    spec fn images(&self) -> Map<i32, ImageRecord>;

    /// The repository's own consistency condition, kept by every operation.
    spec fn well_formed(&self) -> bool;

    /// Lookups never fail. Kept by every operation.
    spec fn dependable(&self) -> bool;

    /// How many more images the store takes for certain: a write succeeds
    /// while this is positive, and each stored image uses up at most one.
    spec fn room(&self) -> nat;

    /// Stores a new image and returns its fresh id.
    fn create_image(
        &mut self,
        user_id: &UserId,
        file_name: &str,
        content_type: &str,
        data_b64: &str,
    ) -> (r: Result<ImageId, AppError>)
        requires
            old(self).well_formed(),
        ensures
            final(self).well_formed(),
            r matches Ok(id) ==> {
                &&& !old(self).images().contains_key(id.0)
                &&& final(self).images() == old(self).images().insert(
                    id.0,
                    ImageRecord {
                        user_id: user_id.0,
                        file_name: file_name@,
                        content_type: content_type@,
                        data_base64: data_b64@,
                    },
                )
            },
            r is Err ==> final(self).images() == old(self).images(),
            r matches Err(e) ==> e is SQL,
            old(self).room() > 0 ==> r is Ok,
            r is Ok ==> final(self).room() + 1 >= old(self).room(),
            r is Err ==> final(self).room() == old(self).room(),
            final(self).dependable() == old(self).dependable(),
    ;

    fn find_image_by_user_id(&self, user_id: &UserId) -> (r: Result<Vec<ImageEntity>, AppError>)
        requires
            self.well_formed(),
        ensures
            r matches Ok(v) ==> images_of_user(self.images(), user_id.0, v@),
            r matches Err(e) ==> e is SQL,
            self.dependable() ==> r is Ok,
    ;
}

} // verus!
