use vstd::prelude::*;

verus! {

/// Bytes that one pixel takes: red, green, blue and alpha.
pub const PIXEL_BYTES: usize = 4;

/// Why a texture could not be made from its text.
#[derive(Clone, Debug, PartialEq, Eq)]
pub enum TextureError {
    /// The text is not base64.
    InvalidBase64,
    /// The bytes are no PNG image that can be decoded; `reason` is what the
    /// decoder says about them.
    UndecodableImage { reason: String },
    /// The decoder handed out a pixel buffer that does not have four bytes
    /// for every pixel of the image.
    InconsistentPixels,
}

impl TextureError {
    /// The text shown for this error.
    pub open spec fn spec_message(self) -> Seq<char> {
        match self {
            TextureError::InvalidBase64 => "Failed to decode base64"@,
            TextureError::UndecodableImage { reason } => reason@,
            TextureError::InconsistentPixels => "Decoded image does not match its size"@,
        }
    }

    /// The text shown for this error: what the decoder said where the image
    /// could not be decoded, a fixed text otherwise.
    pub fn message(&self) -> (text: String)
        ensures
            text@ == self.spec_message(),
    {
        match self {
            TextureError::InvalidBase64 => "Failed to decode base64".to_owned(),
            TextureError::UndecodableImage { reason } => reason.clone(),
            TextureError::InconsistentPixels => "Decoded image does not match its size".to_owned(),
        }
    }
}

/// A decoded image, ready for the device: four bytes for every pixel, row
/// after row.
#[derive(Debug, PartialEq, Eq)]
pub struct TextureImage {
    width: u32,
    height: u32,
    pixels: Vec<u8>,
}

/// A decoded image as a plain value.
pub ghost struct TextureModel {
    pub width: u32,
    pub height: u32,
    pub pixels: Seq<u8>,
}

impl TextureModel {
    /// The pixel buffer holds four bytes for every pixel, and no more.
    pub open spec fn wf(self) -> bool {
        self.pixels.len() == PIXEL_BYTES * self.width * self.height
    }
}

/// What `base64::decode` makes of `text`: the bytes it stands for, or nothing
/// where the text is not base64 in the standard alphabet with padding.
pub uninterp spec fn base64_decoded(text: Seq<char>) -> Option<Seq<u8>>;

/// What `image::load_from_memory_with_format` makes of `bytes` read as PNG,
/// seen as red, green, blue and alpha bytes: the width, the height and the
/// pixels of the image they encode, or nothing where they are no PNG image.
pub uninterp spec fn png_decoded(bytes: Seq<u8>) -> Option<(u32, u32, Seq<u8>)>;

/// What `DynamicImage::to_rgba8` makes of `image`: its width, its height and
/// its pixels as red, green, blue and alpha bytes.
pub uninterp spec fn rgba_of(image: image::DynamicImage) -> (u32, u32, Seq<u8>);

#[verifier::external_type_specification]
#[verifier::external_body]
pub struct ExDecodeError(base64::DecodeError);

#[verifier::external_type_specification]
#[verifier::external_body]
pub struct ExDynamicImage(image::DynamicImage);

#[verifier::external_type_specification]
#[verifier::external_body]
pub struct ExImageError(image::ImageError);

/// Calls `base64::decode`, which decodes with the standard alphabet and
/// padding. Claims only that the outcome is the one named `base64_decoded`:
/// the same text always decodes to the same bytes, or always fails.
#[verifier::external_body]
#[allow(deprecated)]
fn decode_base64(text: &str) -> (r: Result<Vec<u8>, base64::DecodeError>)
    ensures
        match r {
            Ok(bytes) => base64_decoded(text@) == Some(bytes@),
            Err(_) => base64_decoded(text@) is None,
        },
{
    base64::decode(text)
}

/// Calls `image::load_from_memory_with_format` with the PNG format, which
/// hands the bytes to the built-in PNG decoder and looks at nothing but the
/// bytes. Claims only that the outcome is the one named `png_decoded`: the
/// same bytes always give an image with the same pixels, or always fail.
#[verifier::external_body]
fn load_image(bytes: &Vec<u8>) -> (r: Result<image::DynamicImage, image::ImageError>)
    ensures
        match r {
            Ok(image) => png_decoded(bytes@) == Some(rgba_of(image)),
            Err(_) => png_decoded(bytes@) is None,
        },
{
    image::load_from_memory_with_format(bytes.as_slice(), image::ImageFormat::Png)
}

/// Calls `DynamicImage::to_rgba8` and takes the buffer apart into its width,
/// its height and its bytes. Claims only that they are what `rgba_of` names.
#[verifier::external_body]
fn image_rgba(image: &image::DynamicImage) -> (r: (u32, u32, Vec<u8>))
    ensures
        (r.0, r.1, r.2@) == rgba_of(*image),
{
    let rgba = image.to_rgba8();
    (rgba.width(), rgba.height(), rgba.into_raw())
}

/// Calls `to_string` on the decoder's error. Nothing is claimed of the text.
#[verifier::external_body]
fn image_error_text(error: &image::ImageError) -> String {
    error.to_string()
}

impl View for TextureImage {
    type V = TextureModel;

    closed spec fn view(&self) -> TextureModel {
        TextureModel { width: self.width, height: self.height, pixels: self.pixels@ }
    }
}

impl TextureImage {
    #[verifier::type_invariant]
    spec fn four_bytes_per_pixel(&self) -> bool {
        self.pixels@.len() == PIXEL_BYTES * self.width * self.height
    }

    /// Makes a texture of `width` by `height` pixels from its bytes, if
    /// there are four bytes for every pixel and no more.
    pub fn from_rgba(width: u32, height: u32, pixels: Vec<u8>) -> (r: Result<
        TextureImage,
        TextureError,
    >)
        ensures
            match r {
                Ok(texture) => texture@ == (TextureModel { width, height, pixels: pixels@ })
                    && texture@.wf(),
                Err(e) => e == TextureError::InconsistentPixels && !(TextureModel {
                    width,
                    height,
                    pixels: pixels@,
                }).wf(),
            },
    {
        assert(width * height <= u32::MAX * u32::MAX) by (nonlinear_arith)
            requires
                0 <= width <= u32::MAX,
                0 <= height <= u32::MAX,
        ;
        let area: u64 = (width as u64) * (height as u64);
        let wanted: u128 = 4 * (area as u128);
        assert(wanted == PIXEL_BYTES * width * height) by (nonlinear_arith)
            requires
                wanted == 4 * (width * height),
        ;
        if pixels.len() as u128 == wanted {
            Ok(TextureImage { width, height, pixels })
        } else {
            Err(TextureError::InconsistentPixels)
        }
    }

    /// The width of the image in pixels.
    pub fn width(&self) -> (width: u32)
        ensures
            width == self@.width,
    {
        self.width
    }

    /// The height of the image in pixels.
    pub fn height(&self) -> (height: u32)
        ensures
            height == self@.height,
    {
        self.height
    }

    /// The bytes of the image, four for every pixel.
    pub fn pixels(&self) -> (pixels: &Vec<u8>)
        ensures
            pixels@ == self@.pixels,
            self@.wf(),
    {
        proof {
            use_type_invariant(self);
        }
        &self.pixels
    }
}

/// Turns the text of a base64-encoded PNG image into a texture: the text is
/// decoded to bytes, the bytes to an image, and the image to red, green, blue
/// and alpha bytes with its width and height.
///
/// Fails with `InvalidBase64` where the text is not base64, with
/// `UndecodableImage` where the bytes are no PNG image, and with
/// `InconsistentPixels` where the decoder's buffer does not fit its size.
pub fn create_image_as_uint8_array(base64_png: &str) -> (r: Result<TextureImage, TextureError>)
    ensures
        match base64_decoded(base64_png@) {
            None => r == Err::<TextureImage, TextureError>(TextureError::InvalidBase64),
            Some(bytes) => match png_decoded(bytes) {
                None => r matches Err(TextureError::UndecodableImage { .. }),
                Some((width, height, pixels)) => {
                    let image = TextureModel { width, height, pixels };
                    if image.wf() {
                        r matches Ok(texture) && texture@ == image
                    } else {
                        r == Err::<TextureImage, TextureError>(TextureError::InconsistentPixels)
                    }
                },
            },
        },
{
    let bytes = match decode_base64(base64_png) {
        Ok(bytes) => bytes,
        Err(_) => {
            return Err(TextureError::InvalidBase64);
        },
    };
    let image = match load_image(&bytes) {
        Ok(image) => image,
        Err(e) => {
            return Err(TextureError::UndecodableImage { reason: image_error_text(&e) });
        },
    };
    let (width, height, pixels) = image_rgba(&image);
    TextureImage::from_rgba(width, height, pixels)
}

} // verus!
