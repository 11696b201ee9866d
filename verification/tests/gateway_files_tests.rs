use hellox::gateway_files::{
    gateway_files_root_from, materialize_document_file, materialize_image_file, sanitize_filename,
    DocumentResolution, GatewayFileError, ImageResolution, StoredGatewayFile,
    StoredGatewayFileMeta,
};

fn stored(file_id: &str, mime_type: &str, body: &[u8]) -> StoredGatewayFile {
    StoredGatewayFile {
        meta: StoredGatewayFileMeta {
            id: file_id.to_string(),
            purpose: Some("user_data".to_string()),
            filename: "sample".to_string(),
            mime_type: Some(mime_type.to_string()),
            content_type: Some(mime_type.to_string()),
            size_bytes: body.len() as u64,
            bytes: body.len() as u64,
            created_at: 1,
            downloadable: false,
        },
        bytes: body.to_vec(),
    }
}

#[test]
fn materializes_text_document_file_reference() {
    let file = stored("file_local_text", "text/plain", b"hello from document");
    match materialize_document_file("file_local_text".to_string(), Some(file), false) {
        Ok(DocumentResolution::Text { media_type, data }) => {
            assert_eq!(media_type, "text/plain");
            assert_eq!(data, "hello from document");
        }
        other => panic!("unexpected resolution: {other:?}"),
    }
}

#[test]
fn materializes_image_file_reference_to_base64() {
    let file = stored("file_local_image", "image/png", b"\x89PNG\r\n\x1a\n");
    match materialize_image_file("file_local_image".to_string(), Some(file), false) {
        Ok(ImageResolution::Base64 { media_type, data }) => {
            assert_eq!(media_type, "image/png");
            assert!(!data.is_empty());
            assert_eq!(data, "iVBORw0KGgo=");
        }
        other => panic!("unexpected resolution: {other:?}"),
    }
}

#[test]
fn unknown_files_are_kept_or_refused() {
    match materialize_image_file("file_x".to_string(), None, true) {
        Ok(ImageResolution::File { file_id }) => assert_eq!(file_id, "file_x"),
        other => panic!("unexpected resolution: {other:?}"),
    }
    match materialize_document_file("file_x".to_string(), None, false) {
        Err(GatewayFileError::BadRequest(message)) => {
            assert_eq!(message, "Unknown local gateway file_id `file_x`.")
        }
        other => panic!("unexpected resolution: {other:?}"),
    }
}

#[test]
fn documents_of_other_types_are_refused() {
    let pdf = stored("file_pdf", "application/pdf", b"%PDF");
    match materialize_document_file("file_pdf".to_string(), Some(pdf), false) {
        Ok(DocumentResolution::Base64 { media_type, data }) => {
            assert_eq!(media_type, "application/pdf");
            assert_eq!(data, "JVBERg==");
        }
        other => panic!("unexpected resolution: {other:?}"),
    }
    let bad_text = stored("file_bin", "text/plain", &[0xff, 0xfe]);
    match materialize_document_file("file_bin".to_string(), Some(bad_text), false) {
        Err(GatewayFileError::BadRequest(message)) => assert_eq!(
            message,
            "File `file_bin` is not valid UTF-8 text/plain content."
        ),
        other => panic!("unexpected resolution: {other:?}"),
    }
    let mut blank = stored("file_blank", "  ", b"abc");
    blank.meta.content_type = Some("image/png".to_string());
    match materialize_image_file("file_blank".to_string(), Some(blank), false) {
        Err(GatewayFileError::BadRequest(message)) => assert_eq!(
            message,
            "File `file_blank` is `application/octet-stream` and cannot be used as an image block."
        ),
        other => panic!("unexpected resolution: {other:?}"),
    }
    let csv = stored("file_csv", "text/csv", b"a,b");
    match materialize_document_file("file_csv".to_string(), Some(csv), false) {
        Err(GatewayFileError::BadRequest(message)) => assert_eq!(
            message,
            "File `file_csv` is `text/csv`. Document blocks currently support local `application/pdf` and `text/plain` uploads."
        ),
        other => panic!("unexpected resolution: {other:?}"),
    }
}

#[test]
fn uploaded_names_are_made_safe() {
    assert_eq!(sanitize_filename("  notes/report.pdf "), "report.pdf");
    assert_eq!(sanitize_filename("a:b*c?.txt"), "a_b_c_.txt");
    assert_eq!(sanitize_filename(""), "upload.bin");
    assert_eq!(sanitize_filename("dir/.."), "upload.bin");
    assert_eq!(gateway_files_root_from("/home/u/.hellox"), "/home/u/.hellox/gateway/files");
}
