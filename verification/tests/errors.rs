use rocy::application::errors::AppError;

fn triple(e: AppError) -> (&'static str, &'static str, u16) {
    let r = e.error_response();
    (r.code, r.message, r.status)
}

#[test]
fn every_error_has_its_code_message_and_status() {
    assert_eq!(triple(AppError::SQL("boom".into())), ("sql_error", "Internal server error", 500));
    assert_eq!(
        triple(AppError::UnsupportedMediaType),
        ("unsupported_media_type", "Only valid image types are allowed (jpeg, png, gif, webp)", 415)
    );
    assert_eq!(triple(AppError::PayloadTooLarge), ("payload_too_large", "Upload too large", 413));
    assert_eq!(triple(AppError::InvalidContentType), ("invalid_content", "Expected multipart/form-data", 400));
    assert_eq!(triple(AppError::Request("x".into())), ("http_error", "Upstream request failed", 500));
    assert_eq!(triple(AppError::TokenError("x".into())), ("oauth_error", "OAuth token exchange failed", 502));
    assert_eq!(triple(AppError::Unauthorized), ("unauthorized", "Unauthorized", 401));
    assert_eq!(triple(AppError::ParseIntError), ("parse_int_error", "Parsing error", 500));
    assert_eq!(triple(AppError::FromRequestPartsError), ("extract_error", "Request extraction error", 500));
}
