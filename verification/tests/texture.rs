use mesh_viewer::texture::{create_image_as_uint8_array, TextureError, TextureImage};

const RGBA_2X2: &str = "iVBORw0KGgoAAAANSUhEUgAAAAIAAAACCAYAAABytg0kAAAAF0lEQVR4nGP4z8DwHwgbGIC0A5eInAYAN+kFIYC3EkoAAAAASUVORK5CYII=";
const RGB_2X1: &str = "iVBORw0KGgoAAAANSUhEUgAAAAIAAAABCAIAAAB7QOjdAAAAD0lEQVR4nGNgZGL+9fsPAAYDAvhOlq22AAAAAElFTkSuQmCC";

#[test]
fn rgba_image_is_decoded_to_its_pixels() {
    let texture = create_image_as_uint8_array(RGBA_2X2).unwrap();
    assert_eq!(texture.width(), 2);
    assert_eq!(texture.height(), 2);
    assert_eq!(
        texture.pixels(),
        &vec![255, 0, 0, 255, 0, 255, 0, 128, 0, 0, 255, 64, 10, 20, 30, 40]
    );
}

#[test]
fn rgb_image_gets_an_opaque_alpha() {
    let texture = create_image_as_uint8_array(RGB_2X1).unwrap();
    assert_eq!((texture.width(), texture.height()), (2, 1));
    assert_eq!(texture.pixels(), &vec![1, 2, 3, 255, 250, 251, 252, 255]);
}

#[test]
fn text_that_is_not_base64_is_rejected() {
    assert_eq!(create_image_as_uint8_array("not base64!"), Err(TextureError::InvalidBase64));
    assert_eq!(create_image_as_uint8_array("bad_value"), Err(TextureError::InvalidBase64));
}

#[test]
fn bytes_that_are_no_image_are_rejected() {
    match create_image_as_uint8_array("dGhpcyBpcyBub3QgYW4gaW1hZ2U=") {
        Err(TextureError::UndecodableImage { reason }) => assert!(!reason.is_empty()),
        other => panic!("unexpected {:?}", other),
    }
}

#[test]
fn truncated_image_is_rejected() {
    let cut = &RGBA_2X2[..RGBA_2X2.len() - 40];
    assert!(matches!(create_image_as_uint8_array(cut), Err(TextureError::UndecodableImage { .. })));
}

#[test]
fn texture_needs_four_bytes_for_every_pixel() {
    let texture = TextureImage::from_rgba(2, 1, vec![1, 2, 3, 4, 5, 6, 7, 8]).unwrap();
    assert_eq!(texture.width(), 2);
    assert_eq!(texture.height(), 1);
    assert_eq!(texture.pixels(), &vec![1, 2, 3, 4, 5, 6, 7, 8]);
    assert_eq!(TextureImage::from_rgba(2, 1, vec![1, 2, 3, 4, 5, 6, 7]), Err(TextureError::InconsistentPixels));
    assert_eq!(TextureImage::from_rgba(2, 1, vec![0; 12]), Err(TextureError::InconsistentPixels));
    assert_eq!(TextureImage::from_rgba(0, 7, vec![]).unwrap().pixels(), &Vec::<u8>::new());
}

#[test]
fn bytes_of_another_format_are_no_png() {
    // "GIF89a" followed by a little of a header.
    assert!(matches!(
        create_image_as_uint8_array("R0lGODlhAQABAIAAAAAAAP///w=="),
        Err(TextureError::UndecodableImage { .. })
    ));
}

#[test]
fn texture_errors_have_their_messages() {
    assert_eq!(TextureError::InvalidBase64.message(), "Failed to decode base64");
    assert_eq!(TextureError::InconsistentPixels.message(), "Decoded image does not match its size");
    assert_eq!(TextureError::UndecodableImage { reason: String::from("bad header") }.message(), "bad header");
    let error = create_image_as_uint8_array("dGhpcyBpcyBub3QgYW4gaW1hZ2U=").unwrap_err();
    assert!(!error.message().is_empty());
}
