use master_home::chat::ChatOpenAI;
use master_home::content::{
    extract_image_extension, image_payload, make_data_url, mime_type_for, mime_type_of,
};
use master_home::error::{ErrorKind, LlmError};

#[test]
fn supported_formats_attach_with_mime_type() {
    let cases = [
        ("png", "image/png"),
        ("PNG", "image/png"),
        ("jpg", "image/jpeg"),
        ("jpeg", "image/jpeg"),
        ("JpEg", "image/jpeg"),
        ("gif", "image/gif"),
        ("webp", "image/webp"),
        ("WEBP", "image/webp"),
    ];
    for (ext, mime) in cases {
        let c = ChatOpenAI::new("gpt-4o", Some("k")).attach_image(b"hello", ext).unwrap();
        let image = c.request.image.clone().unwrap();
        assert_eq!(image.mime_type, mime);
        assert_eq!(image.payload, "aGVsbG8=");
        let body = c.body("Describe this image");
        let url = format!("\"url\":\"data:{};base64,aGVsbG8=\"", mime);
        assert!(body.contains(&url), "{}", body);
    }
}

#[test]
fn image_body_is_exact() {
    let c = ChatOpenAI::new("gpt-4o", Some("k")).attach_image(&[0u8, 1, 2], "png").unwrap();
    assert_eq!(
        c.body("Describe this image"),
        "{\"model\":\"gpt-4o\",\"messages\":[{\"role\":\"user\",\"content\":[{\"type\":\"text\",\"text\":\"Describe this image\"},{\"type\":\"image_url\",\"image_url\":{\"url\":\"data:image/png;base64,AAEC\"}}]}]}"
    );
}

#[test]
fn unsupported_format_is_configuration_error() {
    for ext in ["bmp", "tiff", "unknown", "", "pngg"] {
        let r = ChatOpenAI::new("gpt-4o", Some("k")).attach_image(b"x", ext);
        match r {
            Err(e) => {
                assert_eq!(e.kind(), ErrorKind::Configuration);
                assert!(matches!(&e, LlmError::UnsupportedFormat(f) if f == ext));
                assert_eq!(e.description(), format!("Unsupported image format: {}", ext));
            }
            Ok(_) => panic!("format {} accepted", ext),
        }
    }
}

#[test]
fn mime_lookup() {
    assert_eq!(mime_type_of("jpg"), Some("image/jpeg".to_string()));
    assert_eq!(mime_type_of("JPG"), None);
    assert_eq!(mime_type_for("JPG").unwrap(), "image/jpeg");
    assert!(mime_type_for("svg").is_err());
}

#[test]
fn base64_payload_and_data_url() {
    assert_eq!(image_payload(b"hello"), "aGVsbG8=");
    assert_eq!(image_payload(b""), "");
    assert_eq!(make_data_url("image/gif", "R0lG"), "data:image/gif;base64,R0lG");
}

#[test]
fn extension_is_lowercased() {
    assert_eq!(extract_image_extension("uploads/photo.JPG"), "jpg");
    assert_eq!(extract_image_extension("a/b/c.tar.PnG"), "png");
    assert_eq!(extract_image_extension("noext"), "unknown");
    assert_eq!(extract_image_extension(".hidden"), "unknown");
    assert_eq!(extract_image_extension(""), "unknown");
}
