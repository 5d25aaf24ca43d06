//! Images received through multipart uploads: size limits across the chunks
//! and files of one request, detection of the image type, and storage of
//! the base64-encoded content.

use crate::application::entities::image_entity::ImageEntity;
use crate::application::errors::AppError;
use crate::application::ports::image_repository::{ImageRecord, ImageRepository};
use crate::application::types::{ImageId, SessionUser, UserId};
use crate::codec::base64_standard_encode;
use crate::config::Config;
use crate::domain::image::detect_image_type;
use vstd::prelude::*;

verus! {

/// Image operations over an image repository, with the upload limits of
/// the configuration.
pub struct ImageService<D: ImageRepository> {
    image_repo: D,
    config: Config,
}

/// Byte counts of the upload request in progress, checked against the
/// limits of one file and of the whole request.
pub struct UploadProgress {
    pub per_file_max_bytes: usize,
    pub max_upload_bytes: usize,
    /// Bytes accepted so far over all files of the request.
    pub total_bytes: usize,
}

/// What is reported for each stored file of an upload.
#[derive(Debug)]
pub struct SavedImage {
    /// Name of the multipart field.
    pub field: Option<String>,
    pub file_name: String,
    pub content_type: String,
    /// Number of bytes of the file.
    pub size: usize,
    pub id: ImageId,
}

/// Receiving a chunk of `chunk_len` bytes for a file that already holds
/// `file_len` bytes, with `total` bytes received in the request so far,
/// breaks a limit.
pub open spec fn chunk_exceeds_limits(p: UploadProgress, file_len: nat, chunk_len: nat) -> bool {
    file_len + chunk_len > p.per_file_max_bytes || p.total_bytes + chunk_len > p.max_upload_bytes
}

/// A chunk is refused exactly when it would take the file past the per-file
/// limit or the request past the per-request limit; no other bound applies.
pub proof fn chunk_refused_only_past_a_limit(p: UploadProgress, file_len: nat, chunk_len: nat)
    ensures
        chunk_exceeds_limits(p, file_len, chunk_len) <==> (file_len + chunk_len > p.per_file_max_bytes
            || p.total_bytes + chunk_len > p.max_upload_bytes),
        file_len + chunk_len <= p.per_file_max_bytes && p.total_bytes + chunk_len
            <= p.max_upload_bytes ==> !chunk_exceeds_limits(p, file_len, chunk_len),
{
}

impl UploadProgress {
    /// No byte received yet.
    pub fn new(per_file_max_bytes: usize, max_upload_bytes: usize) -> (r: Self)
        ensures
            r.per_file_max_bytes == per_file_max_bytes,
            r.max_upload_bytes == max_upload_bytes,
            r.total_bytes == 0,
    {
        UploadProgress { per_file_max_bytes, max_upload_bytes, total_bytes: 0 }
    }

    /// Takes in one chunk of the current file: appends it to `file` and
    /// counts it, or refuses the request as too large when the file or the
    /// request would then exceed its limit.
    pub fn accept_chunk(&mut self, file: &mut Vec<u8>, chunk: &[u8]) -> (r: Result<(), AppError>)
        ensures
            final(self).per_file_max_bytes == old(self).per_file_max_bytes,
            final(self).max_upload_bytes == old(self).max_upload_bytes,
            r is Err <==> chunk_exceeds_limits(*old(self), old(file)@.len(), chunk@.len()),
            r is Err <==> (old(file)@.len() + chunk@.len() > old(self).per_file_max_bytes
                || old(self).total_bytes + chunk@.len() > old(self).max_upload_bytes),
            r is Err ==> r == Err::<(), AppError>(AppError::PayloadTooLarge) && *final(self)
                == *old(self) && final(file)@ == old(file)@,
            r is Ok ==> {
                &&& final(file)@ == old(file)@ + chunk@
                &&& final(self).total_bytes == old(self).total_bytes + chunk@.len()
                &&& final(file)@.len() <= final(self).per_file_max_bytes
                &&& final(self).total_bytes <= final(self).max_upload_bytes
            },
    {
        let len = chunk.len();
        let file_bytes = file.len();
        let exceeds_file = file_bytes > self.per_file_max_bytes || len > self.per_file_max_bytes
            - file_bytes;
        let exceeds_total = self.total_bytes > self.max_upload_bytes || len > self.max_upload_bytes
            - self.total_bytes;
        if exceeds_file || exceeds_total {
            return Err(AppError::PayloadTooLarge);
        }
        let mut i: usize = 0;
        while i < len
            invariant
                i <= len,
                len == chunk@.len(),
                file@ == old(file)@ + chunk@.subrange(0, i as int),
            decreases len - i,
        {
            file.push(chunk[i]);
            i = i + 1;
            proof {
                assert(chunk@.subrange(0, i as int) =~= chunk@.subrange(0, i - 1).push(
                    chunk@[i - 1],
                ));
            }
        }
        assert(chunk@.subrange(0, len as int) =~= chunk@);
        self.total_bytes = self.total_bytes + len;
        Ok(())
    }
}

impl<D: ImageRepository> ImageService<D> {
    /// The images stored in the underlying repository.
    pub closed spec fn images(&self) -> Map<i32, ImageRecord> {
        self.image_repo.images()
    }

    /// The configuration the service was built with.
    pub closed spec fn config(&self) -> Config {
        self.config
    }

    /// The underlying repository is consistent.
    pub closed spec fn well_formed(&self) -> bool {
        self.image_repo.well_formed()
    }

    /// Lookups in the underlying repository never fail.
    pub closed spec fn dependable(&self) -> bool {
        self.image_repo.dependable()
    }

    /// How many more images the underlying repository takes for certain.
    pub closed spec fn room(&self) -> nat {
        self.image_repo.room()
    }

    pub fn new(image_repo: D, config: Config) -> (r: Self)
        requires
            image_repo.well_formed(),
        ensures
            r.well_formed(),
            r.images() == image_repo.images(),
            r.config() == config,
            r.dependable() == image_repo.dependable(),
            r.room() == image_repo.room(),
    {
        ImageService { image_repo, config }
    }

    /// Stores an image of `user_id` and returns its fresh id.
    pub fn store(
        &mut self,
        user_id: &UserId,
        file_name: &str,
        content_type: &str,
        data_b64: &str,
    ) -> (r: Result<ImageId, AppError>)
        requires
            old(self).well_formed(),
        ensures
            final(self).well_formed(),
            final(self).config() == old(self).config(),
            r matches Ok(id) ==> {
                &&& !old(self).images().contains_key(id.0)
                &&& final(self).images() == old(self).images().insert(
                    id.0,
                    ImageRecord {
                        user_id: user_id.0,
                        file_name: file_name@,
                        content_type: content_type@,
                        data_base64: data_b64@,
                    },
                )
            },
            r is Err ==> final(self).images() == old(self).images(),
            r matches Err(e) ==> e is SQL,
            old(self).room() > 0 ==> r is Ok,
            r is Ok ==> final(self).room() + 1 >= old(self).room(),
            r is Err ==> final(self).room() == old(self).room(),
            final(self).dependable() == old(self).dependable(),
    {
        self.image_repo.create_image(user_id, file_name, content_type, data_b64)
    }

    /// Every stored image of the signed-in user.
    pub fn find_all_images(&self, profile: SessionUser) -> (r: Result<Vec<ImageEntity>, AppError>)
        requires
            self.well_formed(),
        ensures
            r matches Ok(v) ==> crate::application::ports::image_repository::images_of_user(
                self.images(),
                profile.user_id.0,
                v@,
            ),
            r matches Err(e) ==> e is SQL,
            self.dependable() ==> r is Ok,
    {
        self.image_repo.find_image_by_user_id(&profile.user_id)
    }

    /// The byte counts of a new upload request, under the configured limits.
    pub fn start_upload(&self) -> (r: UploadProgress)
        ensures
            r.per_file_max_bytes == self.config().per_file_max_bytes,
            r.max_upload_bytes == self.config().max_upload_bytes,
            r.total_bytes == 0,
    {
        UploadProgress::new(self.config.per_file_max_bytes, self.config.max_upload_bytes)
    }

    /// Stores one fully received file of the signed-in user: refuses it as
    /// an unsupported media type unless its magic bytes announce a
    /// supported image, else stores it base64-encoded under its detected
    /// MIME type and reports it. A supported image fails only when the store
    /// does, with its storage error; it is stored while the store has room.
    pub fn save_upload(
        &mut self,
        profile: &SessionUser,
        field: Option<String>,
        file_name: String,
        data: Vec<u8>,
    ) -> (r: Result<SavedImage, AppError>)
        requires
            old(self).well_formed(),
            data@.len() <= isize::MAX,
        ensures
            final(self).well_formed(),
            final(self).config() == old(self).config(),
            crate::domain::image::image_type_of(data@) is None ==> (r matches Err(
                AppError::UnsupportedMediaType,
            )),
            crate::domain::image::image_type_of(data@) is Some ==> (r matches Err(e) ==> e is SQL),
            crate::domain::image::image_type_of(data@) is Some && old(self).room() > 0 ==> r is Ok,
            r is Ok ==> final(self).room() + 1 >= old(self).room(),
            r is Err ==> final(self).room() == old(self).room(),
            final(self).dependable() == old(self).dependable(),
            r matches Ok(saved) ==> {
                &&& crate::domain::image::image_type_of(data@) == Some(saved.content_type@)
                &&& crate::config::opt_view(saved.field) == crate::config::opt_view(field)
                &&& saved.file_name@ == file_name@
                &&& saved.size == data@.len()
                &&& !old(self).images().contains_key(saved.id.0)
                &&& final(self).images() == old(self).images().insert(
                    saved.id.0,
                    ImageRecord {
                        user_id: profile.user_id.0,
                        file_name: file_name@,
                        content_type: saved.content_type@,
                        data_base64: crate::codec::base64_standard_encoding(data@),
                    },
                )
            },
            r is Err ==> final(self).images() == old(self).images(),
    {
        let detected_ct = match detect_image_type(data.as_slice()) {
            Some(ct) => ct,
            None => {
                return Err(AppError::UnsupportedMediaType);
            },
        };
        let b64 = base64_standard_encode(data.as_slice());
        let image_id = self.store(&profile.user_id, file_name.as_str(), detected_ct, b64.as_str())?;
        Ok(
            SavedImage {
                field,
                file_name,
                content_type: detected_ct.to_owned(),
                size: data.len(),
                id: image_id,
            },
        )
    }
}

} // verus!
