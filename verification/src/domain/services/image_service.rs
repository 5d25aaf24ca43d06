//! Images: storing and listing them over an image repository, and turning
//! an uploaded file into a stored image.

use crate::application::entities::image_entity::ImageEntity;
use crate::application::errors::AppError;
use crate::application::ports::image_repository::{ImageRecord, ImageRepository};
use crate::application::types::{ImageId, SessionUser, UserId};
use crate::config::Config;
use vstd::prelude::*;
use vstd::string::*;

verus! {

/// Image operations over an image repository.
pub struct ImageService<D: ImageRepository> {
    image_repo: D,
    config: Config,
}

/// The outcome of receiving an uploaded file: its bytes, its name and its
/// detected MIME type; no bytes and empty strings when nothing was sent.
#[derive(Debug)]
pub struct FileUploadResult {
    pub data: Option<Vec<u8>>,
    pub file_name: String,
    pub content_type: String,
}

impl Default for FileUploadResult {
    fn default() -> (r: FileUploadResult)
        ensures
            r.data is None,
            r.file_name@ == ""@,
            r.content_type@ == ""@,
    {
        FileUploadResult { data: None, file_name: "".to_owned(), content_type: "".to_owned() }
    }
}

impl<D: ImageRepository> ImageService<D> {
    /// The images stored in the underlying repository.
    pub closed spec fn images(&self) -> Map<i32, ImageRecord> {
        self.image_repo.images()
    }

    /// The configuration the service was built with.
    pub closed spec fn config(&self) -> Config {
        self.config
    }

    /// The underlying repository is consistent.
    pub closed spec fn well_formed(&self) -> bool {
        self.image_repo.well_formed()
    }

    /// Lookups in the underlying repository never fail.
    pub closed spec fn dependable(&self) -> bool {
        self.image_repo.dependable()
    }

    /// How many more images the underlying repository takes for certain.
    pub closed spec fn room(&self) -> nat {
        self.image_repo.room()
    }

    pub fn new(image_repo: D, config: Config) -> (r: Self)
        requires
            image_repo.well_formed(),
        ensures
            r.well_formed(),
            r.images() == image_repo.images(),
            r.config() == config,
            r.dependable() == image_repo.dependable(),
            r.room() == image_repo.room(),
    {
        ImageService { image_repo, config }
    }

    /// Stores an image of `user_id` and returns its fresh id.
    pub fn create_image(
        &mut self,
        user_id: &UserId,
        file_name: &str,
        content_type: &str,
        data_b64: &str,
    ) -> (r: Result<ImageId, AppError>)
        requires
            old(self).well_formed(),
        ensures
            final(self).well_formed(),
            final(self).config() == old(self).config(),
            r matches Ok(id) ==> {
                &&& !old(self).images().contains_key(id.0)
                &&& final(self).images() == old(self).images().insert(
                    id.0,
                    ImageRecord {
                        user_id: user_id.0,
                        file_name: file_name@,
                        content_type: content_type@,
                        data_base64: data_b64@,
                    },
                )
            },
            r is Err ==> final(self).images() == old(self).images(),
            r matches Err(e) ==> e is SQL,
            old(self).room() > 0 ==> r is Ok,
            r is Ok ==> final(self).room() + 1 >= old(self).room(),
            r is Err ==> final(self).room() == old(self).room(),
            final(self).dependable() == old(self).dependable(),
    {
        self.image_repo.create_image(user_id, file_name, content_type, data_b64)
    }

    /// Every stored image of the signed-in user.
    pub fn find_all_images(&self, profile: &SessionUser) -> (r: Result<Vec<ImageEntity>, AppError>)
        requires
            self.well_formed(),
        ensures
            r matches Ok(v) ==> crate::application::ports::image_repository::images_of_user(
                self.images(),
                profile.user_id.0,
                v@,
            ),
            r matches Err(e) ==> e is SQL,
            self.dependable() ==> r is Ok,
    {
        self.image_repo.find_image_by_user_id(&profile.user_id)
    }
}

/// Where an uploaded file is written: `<upload_dir>/<file_name>`.
pub fn upload_path(config: &Config, file_name: &str) -> (r: String)
    ensures
        r@ == config.upload_dir@ + "/"@ + file_name@,
{
    let mut path = config.upload_dir.clone();
    path.append("/");
    path.append(file_name);
    path
}

/// Calls `ulid::Ulid::new()` and renders it with `to_string`. The id depends
/// on the clock and on chance; only its length, the crate's `ULID_LEN`, is
/// claimed.
#[verifier::external_body]
fn new_ulid_text() -> (r: String)
    ensures
        r@.len() == 26,
{
    ulid::Ulid::new().to_string()
}

/// The name an uploaded file is stored under: the name the client gave, or
/// a fresh ULID followed by `.bin` when it gave none.
pub fn upload_file_name(given: Option<String>) -> (r: String)
    ensures
        match given {
            Some(n) => r@ == n@,
            None => exists|u: Seq<char>| u.len() == 26 && r@ == u + ".bin"@,
        },
{
    match given {
        Some(n) => n,
        None => {
            let mut name = new_ulid_text();
            name.append(".bin");
            name
        },
    }
}

/// Accepts an uploaded file whose magic bytes announce a supported image,
/// and records its detected MIME type; refuses any other file as an
/// unsupported media type.
pub fn prepare_upload(file_name: String, data: Vec<u8>) -> (r: Result<FileUploadResult, AppError>)
    ensures
        match r {
            Ok(res) => {
                &&& crate::domain::image::image_type_of(data@) == Some(res.content_type@)
                &&& res.data == Some(data)
                &&& res.file_name@ == file_name@
            },
            Err(e) => e is UnsupportedMediaType && crate::domain::image::image_type_of(data@)
                is None,
        },
{
    match detect_image_type(data.as_slice()) {
        Some(ct) => Ok(
            FileUploadResult { data: Some(data), file_name, content_type: ct.to_owned() },
        ),
        None => Err(AppError::UnsupportedMediaType),
    }
}

/// Detects common image content types by inspecting magic bytes.
pub fn detect_image_type(data: &[u8]) -> (r: Option<&'static str>)
    ensures
        crate::domain::image::opt_str_view(r) == crate::domain::image::image_type_of(data@),
{
    crate::domain::image::detect_image_type(data)
}

} // verus!
