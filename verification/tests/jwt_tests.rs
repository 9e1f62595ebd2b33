use image_vault::error::ServiceError;
use image_vault::jwt::JwtService;
use image_vault::service::{ImageListResponse, ImageResponse};
use image_vault::memory::{InMemoryImageRepository, InMemoryImageStore};
use image_vault::service::ImageService;

#[test]
fn token_round_trip_recovers_claims() {
    let jwt = JwtService::new("a test secret".to_string());
    let token = jwt.generate_token("user-1", "alice").unwrap();
    let claims = jwt.verify_token(&token).unwrap();
    assert_eq!(claims.sub, "user-1");
    assert_eq!(claims.username, "alice");
    assert!(claims.exp > 0);
}

#[test]
fn token_with_wrong_secret_is_rejected() {
    let jwt = JwtService::new("a test secret".to_string());
    let other = JwtService::new("another secret".to_string());
    let token = jwt.generate_token("user-1", "alice").unwrap();
    assert!(matches!(
        other.verify_token(&token),
        Err(ServiceError::ValidationError(_))
    ));
    assert!(matches!(
        jwt.verify_token("not a token"),
        Err(ServiceError::ValidationError(_))
    ));
}

#[test]
fn error_messages_name_their_kind() {
    assert_eq!(ServiceError::NotFound.message(), "not found");
    assert_eq!(ServiceError::AccessDenied.message(), "access denied");
    assert_eq!(ServiceError::Conflict.message(), "conflict");
    assert_eq!(
        ServiceError::ValidationError("bad".to_string()).message(),
        "validation error: bad"
    );
    assert_eq!(
        ServiceError::StorageFailure("down".to_string()).message(),
        "storage failure: down"
    );
}

fn png_bytes(w: u32, h: u32) -> Vec<u8> {
    let img = image::DynamicImage::ImageRgb8(image::RgbImage::new(w, h));
    let mut buf = std::io::Cursor::new(Vec::new());
    img.write_to(&mut buf, image::ImageFormat::Png).unwrap();
    buf.into_inner()
}

#[test]
fn list_response_mirrors_records() {
    let mut svc = ImageService::new(InMemoryImageRepository::new(), InMemoryImageStore::new());
    let input = png_bytes(2, 2);
    let a = svc.upload_image("alice", "one.png", &input).unwrap();
    let _b = svc.upload_image("alice", "two.png", &input).unwrap();
    let listed = svc.list_images("alice", 1, 10).unwrap();
    let resp = ImageListResponse::build(&listed, 1, 10);
    assert_eq!(resp.total, 2);
    assert_eq!(resp.page, 1);
    assert_eq!(resp.limit, 10);
    assert_eq!(resp.images.len(), 2);
    assert_eq!(resp.images[1].id, a.id);
    assert_eq!(resp.images[1].original_filename, "one.png");
    assert_eq!(resp.images[1].file_size, input.len() as u64);
    let one = ImageResponse::from_image(&a);
    assert_eq!(one.id, a.id);
    assert_eq!(one.mime_type, a.mime_type);
}
