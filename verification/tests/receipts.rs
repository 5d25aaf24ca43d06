use rocy::adapters::memory::in_memory_image_repo::InMemoryImageRepo;
use rocy::adapters::memory::in_memory_receipt_repo::InMemoryReceiptRepo;
use rocy::application::types::{ImageId, UserId};
use rocy::config::Config;
use rocy::domain::receipt::{image_data_url, select_receipt_text, OcrOutputItem, OcrResponse};
use rocy::domain::services::image_service::{FileUploadResult, ImageService};
use rocy::domain::services::receipt_service::ReceiptService;
use rocy::domain::use_cases::receipt_scanner::{encode_image, ReceiptScanner};

#[test]
fn images_are_sent_as_jpeg_data_urls() {
    assert_eq!(image_data_url("QUJD"), "data:image/jpeg;base64,QUJD");
    assert_eq!(encode_image(b"hello world~"), "aGVsbG8gd29ybGR+");
    assert_eq!(encode_image(b"ab"), "YWI=");
    assert_eq!(encode_image(b""), "");
}

fn item(parts: Option<Vec<Option<&str>>>) -> OcrOutputItem {
    OcrOutputItem { content: parts.map(|ps| ps.into_iter().map(|p| p.map(|s| s.to_string())).collect()) }
}

#[test]
fn the_first_content_text_is_the_receipt() {
    let resp = OcrResponse {
        output_text: None,
        output: Some(vec![item(None), item(Some(vec![None, Some("{\"a\":1}"), Some("later")])), item(Some(vec![Some("x")]))]),
    };
    assert_eq!(select_receipt_text(&resp).as_deref(), Some("{\"a\":1}"));

    let none = OcrResponse { output_text: None, output: Some(vec![item(Some(vec![None])), item(None)]) };
    assert_eq!(select_receipt_text(&none), None);

    let with_output_text = OcrResponse { output_text: Some("t".into()), output: Some(vec![item(Some(vec![Some("x")]))]) };
    assert_eq!(select_receipt_text(&with_output_text), None);

    let empty = OcrResponse { output_text: None, output: None };
    assert_eq!(select_receipt_text(&empty), None);
}

#[test]
fn scanner_stores_image_then_receipt() {
    let images = ImageService::new(InMemoryImageRepo::new(), Config::default());
    let receipts = ReceiptService::new(InMemoryReceiptRepo::new());
    let mut scanner = ReceiptScanner::new(images, receipts);

    let nothing = scanner.store_receipt_image(FileUploadResult::default(), &UserId(1)).unwrap();
    assert!(nothing.is_none());

    let upload = FileUploadResult { data: Some(vec![0xFF, 0xD8, 0xFF]), file_name: "r.jpg".into(), content_type: "image/jpeg".into() };
    let stored = scanner.store_receipt_image(upload, &UserId(1)).unwrap().unwrap();
    assert_eq!(stored.image_id, ImageId(1));
    assert_eq!(stored.data_base64, "/9j/");

    let json = scanner.store_receipt(&stored.image_id, "{\"store\":\"x\"}".into()).unwrap();
    assert_eq!(json, "{\"store\":\"x\"}");
}

#[test]
fn receipts_get_fresh_ids() {
    let mut service = ReceiptService::new(InMemoryReceiptRepo::new());
    let a = service.create_receipt(&ImageId(1), "{}").unwrap();
    let b = service.create_receipt(&ImageId(1), "[]").unwrap();
    assert_eq!(a.0, 1);
    assert_eq!(b.0, 2);
}
