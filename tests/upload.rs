use master_home::upload::{
    new_upload_key, upload_extension, upload_key, upload_params, upload_reply_body,
    UploadResponse,
};

#[test]
fn extension_after_last_dot() {
    assert_eq!(upload_extension("photo.png"), "png");
    assert_eq!(upload_extension("archive.tar.gz"), "gz");
    assert_eq!(upload_extension("README"), "README");
    assert_eq!(upload_extension("trailing."), "");
    assert_eq!(upload_extension(""), "");
}

#[test]
fn key_layout() {
    assert_eq!(upload_key("abc", "cat.jpeg"), "uploads/abc.jpeg");
}

#[test]
fn fresh_keys_differ() {
    let a = new_upload_key("cat.png");
    let b = new_upload_key("cat.png");
    assert!(a.starts_with("uploads/"));
    assert!(a.ends_with(".png"));
    assert_eq!(a.len(), "uploads/".len() + 36 + ".png".len());
    assert_ne!(a, b);
}

#[test]
fn params_defaults() {
    let p = upload_params("bucket", "f.png", None, None);
    assert_eq!(p.bucket_name, "bucket");
    assert_eq!(p.filename, "f.png");
    assert_eq!(p.description, "Null");
    assert_eq!(p.content_type, "application/octet-stream");
    assert_eq!(p.expires_in, 3600);
    let q = upload_params("b", "f", Some("d"), Some("image/png"));
    assert_eq!(q.description, "d");
    assert_eq!(q.content_type, "image/png");
}

#[test]
fn reply_body() {
    let r = UploadResponse { upload_url: "https://u/x?sig=1".to_string(), file_key: "uploads/k.png".to_string() };
    assert_eq!(
        upload_reply_body("ev-1", &r, "bkt"),
        "{\"event_id\":\"ev-1\",\"upload_url\":\"https://u/x?sig=1\",\"file_key\":\"uploads/k.png\",\"bucket_name\":\"bkt\"}"
    );
}
