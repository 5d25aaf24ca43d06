use rocy::adapters::memory::in_memory_image_repo::InMemoryImageRepo;
use rocy::application::errors::AppError;
use rocy::application::services::image_service::{ImageService, UploadProgress};
use rocy::application::types::{Email, ImageId, SessionUser, UserId};
use rocy::config::Config;
use rocy::domain::services::image_service::{
    detect_image_type, prepare_upload, upload_file_name, upload_path, FileUploadResult, ImageService as DomainImageService,
};

const PNG: [u8; 8] = [0x89, b'P', b'N', b'G', 0x0D, 0x0A, 0x1A, 0x0A];

fn user(id: i32) -> SessionUser {
    SessionUser { user_id: UserId(id), email: Email("u@example.com".into()) }
}

#[test]
fn chunks_are_counted_per_file_and_per_request() {
    let mut p = UploadProgress::new(10, 15);
    let mut file = Vec::new();
    assert!(p.accept_chunk(&mut file, &[1, 2, 3, 4]).is_ok());
    assert!(p.accept_chunk(&mut file, &[5, 6, 7, 8, 9, 10]).is_ok());
    assert_eq!(file, vec![1, 2, 3, 4, 5, 6, 7, 8, 9, 10]);
    assert_eq!(p.total_bytes, 10);
    // The file limit is reached.
    assert!(matches!(p.accept_chunk(&mut file, &[11]), Err(AppError::PayloadTooLarge)));
    assert_eq!(file.len(), 10);
    assert_eq!(p.total_bytes, 10);
    // A second file: the request limit applies across files.
    let mut second = Vec::new();
    assert!(p.accept_chunk(&mut second, &[0; 5]).is_ok());
    assert_eq!(p.total_bytes, 15);
    assert!(matches!(p.accept_chunk(&mut second, &[0]), Err(AppError::PayloadTooLarge)));
    assert!(p.accept_chunk(&mut second, &[]).is_ok());
}

#[test]
fn saved_uploads_are_detected_encoded_and_stored() {
    let mut service = ImageService::new(InMemoryImageRepo::new(), Config::default());
    let progress = service.start_upload();
    assert_eq!(progress.per_file_max_bytes, 52428800);
    assert_eq!(progress.total_bytes, 0);

    let mut data = PNG.to_vec();
    data.extend_from_slice(b"rest");
    let saved = service.save_upload(&user(1), Some("file".into()), "a.png".into(), data).unwrap();
    assert_eq!(saved.content_type, "image/png");
    assert_eq!(saved.size, 12);
    assert_eq!(saved.file_name, "a.png");
    assert_eq!(saved.field.as_deref(), Some("file"));
    assert_eq!(saved.id, ImageId(1));

    let err = service.save_upload(&user(1), None, "b.txt".into(), b"hello".to_vec());
    assert!(matches!(err, Err(AppError::UnsupportedMediaType)));

    let jpeg = vec![0xFF, 0xD8, 0xFF];
    let saved2 = service.save_upload(&user(2), None, "c.jpg".into(), jpeg).unwrap();
    assert_eq!(saved2.id, ImageId(2));

    let mine = service.find_all_images(user(1)).unwrap();
    assert_eq!(mine.len(), 1);
    assert_eq!(mine[0].file_name, "a.png");
    assert_eq!(mine[0].content_type, "image/png");
    assert_eq!(mine[0].data_base64, "iVBORw0KGgpyZXN0");
    let theirs = service.find_all_images(user(2)).unwrap();
    assert_eq!(theirs.len(), 1);
    assert_eq!(theirs[0].data_base64, "/9j/");
    assert!(service.find_all_images(user(3)).unwrap().is_empty());
}

#[test]
fn received_files_keep_their_name_or_get_a_generated_one() {
    assert_eq!(upload_file_name(Some("x.png".into())), "x.png");
    let generated = upload_file_name(None);
    assert_eq!(generated.len(), 30);
    assert!(generated.ends_with(".bin"));
    assert_ne!(generated, upload_file_name(None));

    let ok = prepare_upload("x.gif".into(), b"GIF89a".to_vec()).unwrap();
    assert_eq!(ok.content_type, "image/gif");
    assert_eq!(ok.data.as_deref(), Some(&b"GIF89a"[..]));
    assert!(matches!(prepare_upload("x".into(), vec![1, 2, 3]), Err(AppError::UnsupportedMediaType)));

    let d = FileUploadResult::default();
    assert!(d.data.is_none());
    assert_eq!(d.file_name, "");
    assert_eq!(d.content_type, "");
    assert_eq!(detect_image_type(&PNG), Some("image/png"));
}

#[test]
fn domain_image_service_stores_and_lists_and_builds_paths() {
    let mut c = Config::default();
    c.upload_dir = "/tmp/up".into();
    assert_eq!(upload_path(&c, "a.png"), "/tmp/up/a.png");
    let mut service = DomainImageService::new(InMemoryImageRepo::new(), c);
    let id = service.create_image(&UserId(4), "a.png", "image/png", "AAAA").unwrap();
    assert_eq!(id, ImageId(1));
    let all = service.find_all_images(&user(4)).unwrap();
    assert_eq!(all.len(), 1);
    assert_eq!(all[0].data_base64, "AAAA");
}
