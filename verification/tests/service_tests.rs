use image_vault::domain::{ImageTransformation, Resize};
use image_vault::error::ServiceError;
use image_vault::memory::{InMemoryImageRepository, InMemoryImageStore};
use image_vault::service::{ImageService, PaginationParams, MAX_LIST_LIMIT};

fn new_service() -> ImageService<InMemoryImageRepository, InMemoryImageStore> {
    ImageService::new(InMemoryImageRepository::new(), InMemoryImageStore::new())
}

fn png_bytes(w: u32, h: u32) -> Vec<u8> {
    let img = image::DynamicImage::ImageRgb8(image::RgbImage::new(w, h));
    let mut buf = std::io::Cursor::new(Vec::new());
    img.write_to(&mut buf, image::ImageFormat::Png).unwrap();
    buf.into_inner()
}

fn jpeg_bytes(w: u32, h: u32) -> Vec<u8> {
    let img = image::DynamicImage::ImageRgb8(image::RgbImage::new(w, h));
    let mut buf = std::io::Cursor::new(Vec::new());
    img.write_to(&mut buf, image::ImageFormat::Jpeg).unwrap();
    buf.into_inner()
}

fn no_ops() -> ImageTransformation {
    ImageTransformation { resize: None, crop: None, rotate: None, format: None, filters: None }
}

#[test]
fn upload_then_fetch_returns_identical_bytes() {
    let mut svc = new_service();
    let input = png_bytes(12, 7);
    let img = svc.upload_image("alice", "photo.png", &input).unwrap();
    assert_eq!(img.user_id, "alice");
    assert_eq!(img.original_filename, "photo.png");
    assert_eq!(img.file_size, input.len() as u64);
    assert!(img.created_at.is_some());
    assert_eq!(img.id.len(), 36);
    assert_eq!(img.storage_path, format!("{}_photo.png", img.id));
    assert_eq!(img.filename, img.storage_path);
    assert_eq!(img.mime_type, "image/jpeg");
    let (rec, bytes) = svc.get_image(&img.id, "alice").unwrap();
    assert_eq!(rec.id, img.id);
    assert_eq!(bytes, input);
}

#[test]
fn upload_rejects_empty_payload() {
    let mut svc = new_service();
    let res = svc.upload_image("alice", "empty.png", &[]);
    assert!(matches!(res, Err(ServiceError::ValidationError(_))));
}

#[test]
fn cross_owner_access_is_denied() {
    let mut svc = new_service();
    let input = png_bytes(4, 4);
    let img = svc.upload_image("alice", "a.png", &input).unwrap();
    assert!(matches!(
        svc.get_image(&img.id, "bob"),
        Err(ServiceError::AccessDenied)
    ));
    assert!(matches!(
        svc.transform_image(&img.id, "bob", no_ops()),
        Err(ServiceError::AccessDenied)
    ));
    assert!(matches!(
        svc.delete_image(&img.id, "bob"),
        Err(ServiceError::AccessDenied)
    ));
    // the record is untouched by the denied delete
    let (_, bytes) = svc.get_image(&img.id, "alice").unwrap();
    assert_eq!(bytes, input);
}

#[test]
fn missing_id_is_not_found_never_denied() {
    let mut svc = new_service();
    let input = png_bytes(4, 4);
    let _ = svc.upload_image("alice", "a.png", &input).unwrap();
    assert!(matches!(
        svc.get_image("no-such-id", "bob"),
        Err(ServiceError::NotFound)
    ));
    assert!(matches!(
        svc.transform_image("no-such-id", "bob", no_ops()),
        Err(ServiceError::NotFound)
    ));
    assert!(matches!(
        svc.delete_image("no-such-id", "bob"),
        Err(ServiceError::NotFound)
    ));
}

#[test]
fn list_clamps_limit_to_maximum() {
    let mut svc = new_service();
    let input = png_bytes(1, 1);
    for i in 0..(MAX_LIST_LIMIT + 5) {
        let name = format!("img{}.png", i);
        svc.upload_image("alice", &name, &input).unwrap();
    }
    let listed = svc.list_images("alice", 1, 1000).unwrap();
    assert_eq!(listed.len() as u64, MAX_LIST_LIMIT);
}

#[test]
fn list_is_most_recent_first_and_paged() {
    let mut svc = new_service();
    let input = png_bytes(1, 1);
    let a = svc.upload_image("alice", "first.png", &input).unwrap();
    let b = svc.upload_image("alice", "second.png", &input).unwrap();
    let c = svc.upload_image("alice", "third.png", &input).unwrap();
    let listed = svc.list_images("alice", 1, 10).unwrap();
    assert_eq!(listed.len(), 3);
    assert_eq!(listed[0].id, c.id);
    assert_eq!(listed[1].id, b.id);
    assert_eq!(listed[2].id, a.id);
    let page2 = svc.list_images("alice", 2, 2).unwrap();
    assert_eq!(page2.len(), 1);
    assert_eq!(page2[0].id, a.id);
    let beyond = svc.list_images("alice", 5, 2).unwrap();
    assert_eq!(beyond.len(), 0);
}

#[test]
fn list_never_returns_another_owners_records() {
    let mut svc = new_service();
    let input = png_bytes(1, 1);
    let a1 = svc.upload_image("alice", "a1.png", &input).unwrap();
    let b1 = svc.upload_image("bob", "b1.png", &input).unwrap();
    let a2 = svc.upload_image("alice", "a2.png", &input).unwrap();
    let alices = svc.list_images("alice", 1, 10).unwrap();
    assert_eq!(alices.len(), 2);
    assert!(alices.iter().all(|r| r.user_id == "alice"));
    assert_eq!(alices[0].id, a2.id);
    assert_eq!(alices[1].id, a1.id);
    let bobs = svc.list_images("bob", 1, 10).unwrap();
    assert_eq!(bobs.len(), 1);
    assert_eq!(bobs[0].id, b1.id);
    assert!(bobs.iter().all(|r| r.user_id == "bob"));
}

#[test]
fn delete_removes_record_and_bytes() {
    let mut svc = new_service();
    let input = png_bytes(3, 3);
    let img = svc.upload_image("alice", "gone.png", &input).unwrap();
    assert_eq!(svc.delete_image(&img.id, "alice").unwrap(), true);
    assert!(matches!(
        svc.get_image(&img.id, "alice"),
        Err(ServiceError::NotFound)
    ));
    assert!(matches!(
        svc.delete_image(&img.id, "alice"),
        Err(ServiceError::NotFound)
    ));
}

#[test]
fn transform_on_undecodable_upload_is_validation_error() {
    let mut svc = new_service();
    let img = svc.upload_image("alice", "junk.bin", b"this is not an image").unwrap();
    assert!(matches!(
        svc.transform_image(&img.id, "alice", no_ops()),
        Err(ServiceError::ValidationError(_))
    ));
}

#[test]
fn upload_transform_fetch_delete_scenario() {
    let mut svc = new_service();
    let input = jpeg_bytes(120, 80);
    let img = svc.upload_image("caller-a", "cat.jpg", &input).unwrap();
    assert_eq!(img.user_id, "caller-a");
    assert_eq!(img.file_size, input.len() as u64);
    let t = ImageTransformation {
        resize: Some(Resize { width: 50, height: 50 }),
        crop: None,
        rotate: None,
        format: None,
        filters: None,
    };
    let (out, mime) = svc.transform_image(&img.id, "caller-a", t).unwrap();
    assert_eq!(mime, "image/jpeg");
    assert_eq!(image::guess_format(&out).unwrap(), image::ImageFormat::Jpeg);
    let decoded = image::load_from_memory(&out).unwrap();
    assert_eq!((decoded.width(), decoded.height()), (50, 50));
    assert!(matches!(
        svc.get_image(&img.id, "caller-b"),
        Err(ServiceError::AccessDenied)
    ));
    assert_eq!(svc.delete_image(&img.id, "caller-a").unwrap(), true);
    assert!(matches!(
        svc.get_image(&img.id, "caller-a"),
        Err(ServiceError::NotFound)
    ));
}

#[test]
fn pagination_params_resolve_defaults_and_clamp() {
    let p = PaginationParams { page: None, limit: None };
    assert_eq!(p.resolve(), (1, 10));
    let p = PaginationParams { page: Some(0), limit: Some(1000) };
    assert_eq!(p.resolve(), (1, MAX_LIST_LIMIT));
    let p = PaginationParams { page: Some(3), limit: Some(25) };
    assert_eq!(p.resolve(), (3, 25));
}
