use image_vault::domain::{Crop, Filters, ImageTransformation, Resize};
use image_vault::error::ServiceError;
use image_vault::processor::ImageProcessor;

fn png_bytes(w: u32, h: u32) -> Vec<u8> {
    let img = image::DynamicImage::ImageRgb8(image::RgbImage::new(w, h));
    let mut buf = std::io::Cursor::new(Vec::new());
    img.write_to(&mut buf, image::ImageFormat::Png).unwrap();
    buf.into_inner()
}

fn no_ops() -> ImageTransformation {
    ImageTransformation { resize: None, crop: None, rotate: None, format: None, filters: None }
}

fn out_dims(bytes: &[u8]) -> (u32, u32) {
    let img = image::load_from_memory(bytes).unwrap();
    (img.width(), img.height())
}

#[test]
fn no_op_round_trip_keeps_dimensions() {
    let p = ImageProcessor;
    let input = png_bytes(37, 23);
    let (out, mime) = p.process_image(&input, &no_ops()).unwrap();
    assert_eq!(mime, "image/jpeg");
    assert_eq!(out_dims(&out), (37, 23));
}

#[test]
fn rotation_swaps_or_keeps_dimensions() {
    let p = ImageProcessor;
    let input = png_bytes(37, 23);
    for (angle, expect) in [
        (90u32, (23u32, 37u32)),
        (180, (37, 23)),
        (270, (23, 37)),
        (45, (37, 23)), // any other angle is a no-op by design
    ] {
        let t = ImageTransformation { rotate: Some(angle), ..no_ops() };
        let (out, _) = p.process_image(&input, &t).unwrap();
        assert_eq!(out_dims(&out), expect);
    }
}

#[test]
fn unsupported_format_is_validation_error() {
    let p = ImageProcessor;
    let input = png_bytes(8, 8);
    let t = ImageTransformation { format: Some("bmp".to_string()), ..no_ops() };
    assert!(matches!(
        p.process_image(&input, &t),
        Err(ServiceError::ValidationError(_))
    ));
}

#[test]
fn format_names_are_case_insensitive() {
    let p = ImageProcessor;
    let input = png_bytes(5, 5);
    for (name, mime) in [
        ("JPEG", "image/jpeg"),
        ("jpg", "image/jpeg"),
        ("Png", "image/png"),
        ("png", "image/png"),
    ] {
        let t = ImageTransformation { format: Some(name.to_string()), ..no_ops() };
        let (_, got) = p.process_image(&input, &t).unwrap();
        assert_eq!(got, mime);
    }
}

#[test]
fn png_output_really_is_png() {
    let p = ImageProcessor;
    let input = png_bytes(5, 5);
    let t = ImageTransformation { format: Some("png".to_string()), ..no_ops() };
    let (out, mime) = p.process_image(&input, &t).unwrap();
    assert_eq!(mime, "image/png");
    assert_eq!(image::guess_format(&out).unwrap(), image::ImageFormat::Png);
}

#[test]
fn undecodable_bytes_are_a_validation_error() {
    let p = ImageProcessor;
    assert!(matches!(
        p.process_image(b"not an image at all", &no_ops()),
        Err(ServiceError::ValidationError(_))
    ));
}

#[test]
fn crop_within_bounds_yields_rectangle_size() {
    let p = ImageProcessor;
    let input = png_bytes(37, 23);
    let t = ImageTransformation {
        crop: Some(Crop { x: 2, y: 3, width: 10, height: 5 }),
        ..no_ops()
    };
    let (out, _) = p.process_image(&input, &t).unwrap();
    assert_eq!(out_dims(&out), (10, 5));
}

#[test]
fn crop_out_of_bounds_is_validation_error() {
    let p = ImageProcessor;
    let input = png_bytes(37, 23);
    for crop in [
        Crop { x: 30, y: 0, width: 10, height: 5 },  // past the right edge
        Crop { x: 0, y: 20, width: 10, height: 5 },  // past the bottom edge
        Crop { x: 0, y: 0, width: 0, height: 5 },    // empty rectangle
    ] {
        let t = ImageTransformation { crop: Some(crop), ..no_ops() };
        assert!(matches!(
            p.process_image(&input, &t),
            Err(ServiceError::ValidationError(_))
        ));
    }
}

#[test]
fn filters_keep_dimensions() {
    let p = ImageProcessor;
    let input = png_bytes(16, 9);
    let t = ImageTransformation {
        filters: Some(Filters { grayscale: true, sepia: false, blur: Some(2) }),
        ..no_ops()
    };
    let (out, _) = p.process_image(&input, &t).unwrap();
    assert_eq!(out_dims(&out), (16, 9));
}

#[test]
fn grayscale_desaturates_pixels() {
    let mut img = image::RgbImage::new(4, 4);
    for p in img.pixels_mut() {
        *p = image::Rgb([200, 30, 30]);
    }
    let mut buf = std::io::Cursor::new(Vec::new());
    image::DynamicImage::ImageRgb8(img)
        .write_to(&mut buf, image::ImageFormat::Png)
        .unwrap();
    let t = ImageTransformation {
        filters: Some(Filters { grayscale: true, sepia: false, blur: None }),
        format: Some("png".to_string()),
        ..no_ops()
    };
    let p = ImageProcessor;
    let (out, _) = p.process_image(&buf.into_inner(), &t).unwrap();
    let decoded = image::load_from_memory(&out).unwrap().to_rgb8();
    let px = decoded.get_pixel(1, 1);
    assert_eq!(px[0], px[1]);
    assert_eq!(px[1], px[2]);
}

#[test]
fn blur_softens_sharp_edges() {
    let mut img = image::RgbImage::new(8, 8);
    for (x, _y, p) in img.enumerate_pixels_mut() {
        *p = if x < 4 { image::Rgb([255, 255, 255]) } else { image::Rgb([0, 0, 0]) };
    }
    let mut buf = std::io::Cursor::new(Vec::new());
    image::DynamicImage::ImageRgb8(img)
        .write_to(&mut buf, image::ImageFormat::Png)
        .unwrap();
    let t = ImageTransformation {
        filters: Some(Filters { grayscale: false, sepia: false, blur: Some(3) }),
        format: Some("png".to_string()),
        ..no_ops()
    };
    let p = ImageProcessor;
    let (out, _) = p.process_image(&buf.into_inner(), &t).unwrap();
    let decoded = image::load_from_memory(&out).unwrap().to_rgb8();
    let px = decoded.get_pixel(3, 4);
    assert!(px[0] > 0 && px[0] < 255);
}

#[test]
fn resize_yields_exact_target_dims() {
    let p = ImageProcessor;
    let input = png_bytes(100, 50);
    let t = ImageTransformation {
        resize: Some(Resize { width: 40, height: 40 }),
        ..no_ops()
    };
    let (out, _) = p.process_image(&input, &t).unwrap();
    assert_eq!(out_dims(&out), (40, 40));
}

#[test]
fn zero_resize_target_is_validation_error() {
    let p = ImageProcessor;
    let input = png_bytes(10, 10);
    let t = ImageTransformation {
        resize: Some(Resize { width: 0, height: 40 }),
        ..no_ops()
    };
    assert!(matches!(
        p.process_image(&input, &t),
        Err(ServiceError::ValidationError(_))
    ));
}

#[test]
fn equal_inputs_give_equal_bytes() {
    let p = ImageProcessor;
    let input = png_bytes(21, 13);
    let t1 = ImageTransformation {
        resize: Some(Resize { width: 10, height: 10 }),
        rotate: Some(90),
        ..no_ops()
    };
    let t2 = ImageTransformation {
        resize: Some(Resize { width: 10, height: 10 }),
        rotate: Some(90),
        ..no_ops()
    };
    let (a, _) = p.process_image(&input, &t1).unwrap();
    let (b, _) = p.process_image(&input, &t2).unwrap();
    assert_eq!(a, b);
}

#[test]
fn stages_compose_resize_crop_rotate() {
    let p = ImageProcessor;
    let input = png_bytes(60, 60);
    let t = ImageTransformation {
        resize: Some(Resize { width: 30, height: 30 }),
        crop: Some(Crop { x: 0, y: 0, width: 20, height: 10 }),
        rotate: Some(90),
        format: Some("png".to_string()),
        filters: None,
    };
    let (out, mime) = p.process_image(&input, &t).unwrap();
    assert_eq!(mime, "image/png");
    assert_eq!(out_dims(&out), (10, 20));
}
