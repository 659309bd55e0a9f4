use crate::error::{outcome_view, AppError, AppErrorView};
use vstd::prelude::*;
use vstd::string::to_string_from_display_ensures;

verus! {

/// Declares `image::DynamicImage`, a decoded image of the `image` crate.
/// Nothing inside it is visible to the proofs.
#[verifier::external_type_specification]
#[verifier::external_body]
pub struct ExDynamicImage(image::DynamicImage);

/// Declares `image::ImageError`, the error of the `image` crate's decoders.
#[verifier::external_type_specification]
#[verifier::external_body]
pub struct ExImageError(image::ImageError);

/// Declares `webp::Encoder`, which borrows the pixels of the image that it
/// was made for.
#[verifier::external_type_specification]
#[verifier::external_body]
pub struct ExEncoder<'a>(webp::Encoder<'a>);

/// The width of an image of the `image` crate, in pixels: what
/// `DynamicImage::width` returns.
pub uninterp spec fn image_width(image: image::DynamicImage) -> u32;

/// The height of an image of the `image` crate, in pixels: what
/// `DynamicImage::height` returns.
pub uninterp spec fn image_height(image: image::DynamicImage) -> u32;

/// The width of the picture that an encoder of the `webp` crate was made
/// for, in pixels.
pub uninterp spec fn encoder_width(encoder: webp::Encoder<'_>) -> u32;

/// The height of the picture that an encoder of the `webp` crate was made
/// for, in pixels.
pub uninterp spec fn encoder_height(encoder: webp::Encoder<'_>) -> u32;

/// Whether `webp::Encoder::from_image` makes an encoder for an image. It
/// depends on the image alone: on the layout of its pixels.
pub uninterp spec fn encoder_takes(image: image::DynamicImage) -> bool;

/// The reason that `webp::Encoder::from_image` gives for every image that
/// it refuses.
pub open spec fn refusal_detail() -> Seq<char> {
    "Unimplemented"@
}

/// The largest width or height that a WebP picture can have.
pub const WEBP_MAX_DIMENSION: u32 = 16383;

/// Whether libwebp takes a picture of this size: both sides at least one
/// pixel and at most `WEBP_MAX_DIMENSION`.
pub open spec fn dimensions_fit(width: u32, height: u32) -> bool {
    &&& 1 <= width <= WEBP_MAX_DIMENSION
    &&& 1 <= height <= WEBP_MAX_DIMENSION
}

/// Calls `image::load_from_memory`. Its outcome depends on the bytes and on the decoding hooks
/// that the process has registered with the `image` crate: it has no name, and nothing is claimed.
#[verifier::external_body]
fn load_from_memory(bytes: &[u8]) -> (loaded: Result<image::DynamicImage, image::ImageError>) {
    image::load_from_memory(bytes)
}

/// Calls `DynamicImage::width`. Claims only that the result is the width
/// that the contracts call `image_width`.
#[verifier::external_body]
fn width_of(image: &image::DynamicImage) -> (width: u32)
    ensures
        width == image_width(*image),
{
    image.width()
}

/// Calls `DynamicImage::height`. Claims only that the result is the height
/// that the contracts call `image_height`.
#[verifier::external_body]
fn height_of(image: &image::DynamicImage) -> (height: u32)
    ensures
        height == image_height(*image),
{
    image.height()
}

/// Calls `webp::Encoder::from_image`, which takes images of 8-bit RGB and
/// RGBA and refuses the others, whatever their size, with one and the same
/// reason. Claims that an encoder, where one is made, is for a picture of
/// the image's width and height, that one is made exactly for the images
/// that the contracts call taken (`encoder_takes`), and that the reason of
/// a refusal is `refusal_detail`.
#[verifier::external_body]
fn encoder_from_image<'a>(image: &'a image::DynamicImage) -> (made: Result<
    webp::Encoder<'a>,
    &'a str,
>)
    ensures
        made matches Ok(encoder) ==> (encoder_width(encoder) == image_width(*image)
            && encoder_height(encoder) == image_height(*image)),
        made is Ok <==> encoder_takes(*image),
        made matches Err(reason) ==> reason@ == refusal_detail(),
{
    webp::Encoder::from_image(image)
}

/// Whether the bytes begin as a lossless WebP file does: the mark "RIFF",
/// four bytes of length, the mark "WEBP", the chunk mark "VP8L", four bytes
/// of length, the signature byte 0x2f, and at least the four bytes in which
/// the picture's size stands.
pub open spec fn holds_webp_header(bytes: Seq<u8>) -> bool {
    &&& bytes.len() >= 25
    &&& bytes[0] == 0x52 && bytes[1] == 0x49 && bytes[2] == 0x46 && bytes[3] == 0x46
    &&& bytes[8] == 0x57 && bytes[9] == 0x45 && bytes[10] == 0x42 && bytes[11] == 0x50
    &&& bytes[12] == 0x56 && bytes[13] == 0x50 && bytes[14] == 0x38 && bytes[15] == 0x4c
    &&& bytes[20] == 0x2f
}

/// The four bytes after the signature byte of a lossless WebP file, read
/// as one number, the first byte counting least.
pub open spec fn size_field(bytes: Seq<u8>) -> int {
    bytes[21] + 256 * bytes[22] + 65536 * bytes[23] + 16777216 * bytes[24]
}

/// Whether the bytes begin as a lossless WebP file of a picture of this
/// width and height does: after the header, the width less one stands in
/// the first fourteen bits and the height less one in the next fourteen.
pub open spec fn holds_picture(bytes: Seq<u8>, width: u32, height: u32) -> bool {
    &&& holds_webp_header(bytes)
    &&& size_field(bytes) % 16384 == width - 1
    &&& (size_field(bytes) / 16384) % 16384 == height - 1
}

/// Calls `webp::Encoder::encode_lossless` and copies the encoded bytes out
/// of libwebp's memory. That function panics where libwebp refuses the
/// picture, which it does for a side of zero pixels or of more than
/// `WEBP_MAX_DIMENSION`: those are left out. Claims that the bytes begin
/// with the header that libwebp writes for a lossless picture and with the
/// size of the encoder's picture; nothing is claimed of what follows.
#[verifier::external_body]
fn lossless_bytes(encoder: &webp::Encoder<'_>) -> (encoded: Vec<u8>)
    requires
        dimensions_fit(encoder_width(*encoder), encoder_height(*encoder)),
    ensures
        holds_picture(encoded@, encoder_width(*encoder), encoder_height(*encoder)),
{
    encoder.encode_lossless().to_vec()
}

/// A decoded image: the pixels as the decoder left them.
#[derive(Debug)]
pub struct DecodedImage {
    image: image::DynamicImage,
}

impl DecodedImage {
    /// The image of the `image` crate that this one holds.
    pub closed spec fn image(&self) -> image::DynamicImage {
        self.image
    }

    /// The width in pixels.
    pub open spec fn spec_width(&self) -> u32 {
        image_width(self.image())
    }

    /// The height in pixels.
    pub open spec fn spec_height(&self) -> u32 {
        image_height(self.image())
    }

    /// Whether the image has a size that WebP can hold.
    pub open spec fn spec_fits_webp(&self) -> bool {
        dimensions_fit(self.spec_width(), self.spec_height())
    }

    /// Takes an image of the `image` crate as it is.
    pub fn new(image: image::DynamicImage) -> (decoded: DecodedImage)
        ensures
            decoded.image() == image,
    {
        DecodedImage { image }
    }

    /// The width in pixels.
    #[verifier::when_used_as_spec(spec_width)]
    pub fn width(&self) -> (width: u32)
        ensures
            width == self.spec_width(),
    {
        width_of(&self.image)
    }

    /// The height in pixels.
    #[verifier::when_used_as_spec(spec_height)]
    pub fn height(&self) -> (height: u32)
        ensures
            height == self.spec_height(),
    {
        height_of(&self.image)
    }

    /// Whether the image has a size that WebP can hold.
    #[verifier::when_used_as_spec(spec_fits_webp)]
    pub fn fits_webp(&self) -> (fits: bool)
        ensures
            fits == self.spec_fits_webp(),
    {
        let width = self.width();
        let height = self.height();
        1 <= width && width <= WEBP_MAX_DIMENSION && 1 <= height && height <= WEBP_MAX_DIMENSION
    }
}

/// The detail of the failure for an image whose size WebP cannot hold.
pub open spec fn dimension_detail() -> Seq<char> {
    "image dimensions are outside the range that WebP supports"@
}

/// Whether `outcome` is what encoding `image` as lossless WebP gives. The
/// encoder is asked first: an image that it refuses is a conversion failure
/// with the encoder's reason, whatever the image's size. An image that it
/// takes and whose size WebP cannot hold is a conversion failure with the
/// detail `dimension_detail`. Any other image gives the bytes of a lossless
/// WebP file of the image's width and height.
pub open spec fn encodes(image: DecodedImage, outcome: Result<Seq<u8>, AppErrorView>) -> bool {
    if !encoder_takes(image.image()) {
        outcome == Err::<Seq<u8>, AppErrorView>(AppErrorView::ConversionFailed(refusal_detail()))
    } else if !image.spec_fits_webp() {
        outcome == Err::<Seq<u8>, AppErrorView>(AppErrorView::ConversionFailed(dimension_detail()))
    } else {
        outcome matches Ok(bytes) && holds_picture(
            bytes,
            image.spec_width(),
            image.spec_height(),
        )
    }
}

/// Turns what the decoder returned into the service's terms: the image as
/// it is, or a decode failure whose detail is the decoder's own message.
pub fn decode_outcome(loaded: Result<image::DynamicImage, image::ImageError>) -> (outcome: Result<
    DecodedImage,
    AppError,
>)
    ensures
        loaded matches Ok(image) ==> (outcome matches Ok(decoded) && decoded.image() == image),
        loaded matches Err(error) ==> (outcome matches Err(AppError::DecodeFailure(detail))
            && to_string_from_display_ensures::<image::ImageError>(&error, detail)),
{
    match loaded {
        Ok(image) => Ok(DecodedImage::new(image)),
        Err(error) => Err(AppError::DecodeFailure(error.to_string())),
    }
}

/// Decodes the bytes of an image file. The decoder of the `image` crate decides whether it takes
/// them, by the bytes and by the hooks registered in the process. Whatever it gives, a refusal is
/// a decode failure; `decode_outcome` says exactly what becomes of each outcome.
pub fn decode(bytes: &[u8]) -> (outcome: Result<DecodedImage, AppError>)
    ensures
        outcome matches Err(e) ==> e is DecodeFailure,
{
    decode_outcome(load_from_memory(bytes))
}

/// Encodes with an encoder where one was made, and turns a refusal to make
/// one into a conversion failure that carries the reason.
pub fn encode_with(made: Result<webp::Encoder<'_>, &str>) -> (outcome: Result<Vec<u8>, AppError>)
    requires
        made matches Ok(encoder) ==> dimensions_fit(
            encoder_width(encoder),
            encoder_height(encoder),
        ),
    ensures
        made matches Ok(encoder) ==> (outcome matches Ok(bytes) && holds_picture(
            bytes@,
            encoder_width(encoder),
            encoder_height(encoder),
        )),
        made matches Err(reason) ==> (outcome matches Err(e) && e@
            == AppErrorView::ConversionFailed(reason@)),
{
    match made {
        Ok(encoder) => Ok(lossless_bytes(&encoder)),
        Err(reason) => Err(AppError::ConversionFailed(String::from_str(reason))),
    }
}

/// Encodes an image as lossless WebP. An image that the encoder refuses
/// is a conversion failure with the encoder's reason; one that it takes
/// and whose size WebP cannot hold is a conversion failure too; any other
/// is encoded.
pub fn encode_lossless(image: &DecodedImage) -> (outcome: Result<Vec<u8>, AppError>)
    ensures
        encodes(*image, outcome_view(outcome)),
        outcome matches Err(e) ==> e is ConversionFailed,
{
    match encoder_from_image(&image.image) {
        Ok(encoder) => {
            if !image.fits_webp() {
                return Err(
                    AppError::ConversionFailed(
                        String::from_str(
                            "image dimensions are outside the range that WebP supports",
                        ),
                    ),
                );
            }
            encode_with(Ok(encoder))
        },
        Err(reason) => encode_with(Err(reason)),
    }
}

/// Decodes an upload and encodes it as lossless WebP. A failure is a
/// decode failure or what encoding the decoded image gives; success is the
/// encoding of the decoded image, which begins as a lossless WebP file
/// does.
pub fn convert(bytes: &[u8]) -> (outcome: Result<Vec<u8>, AppError>)
    ensures
        outcome matches Err(e) ==> e is DecodeFailure || e is ConversionFailed,
        outcome matches Ok(encoded) ==> holds_webp_header(encoded@),
        (outcome matches Err(e) && e is DecodeFailure) || (exists|image: DecodedImage|
            encodes(image, outcome_view(outcome))),
{
    convert_decoded(decode(bytes))
}

/// Goes on from what decoding gave: a failure is handed on as it is, and
/// an image is encoded as lossless WebP.
pub fn convert_decoded(decoded: Result<DecodedImage, AppError>) -> (outcome: Result<
    Vec<u8>,
    AppError,
>)
    ensures
        decoded matches Err(e) ==> outcome == Err::<Vec<u8>, AppError>(e),
        decoded matches Ok(image) ==> encodes(image, outcome_view(outcome)),
{
    match decoded {
        Ok(image) => encode_lossless(&image),
        Err(e) => Err(e),
    }
}

} // verus!
