//! The preview generator: a payload is decoded as its declared codec, scaled
//! to a fixed width with its aspect ratio kept, and encoded again.

use vstd::prelude::*;
use crate::error::UploadError;
use crate::format::ImageKind;

verus! {

/// The width of every preview, in pixels.
pub const PREVIEW_WIDTH: u32 = 240;

/// The number of bytes of one pixel: red, green, blue and alpha.
pub const BYTES_PER_PIXEL: usize = 4;

/// An image as a mathematical value: its size and its pixels row by row, four
/// bytes each.
pub struct RasterView {
    pub width: nat,
    pub height: nat,
    pub pixels: Seq<u8>,
}

impl RasterView {
    /// The pixel bytes are exactly those of `width * height` pixels, and the
    /// bytes of one row can be counted on this machine, also where there is
    /// no row.
    pub open spec fn well_formed(self) -> bool {
        &&& self.pixels.len() == BYTES_PER_PIXEL * self.width * self.height
        &&& BYTES_PER_PIXEL * self.width <= usize::MAX
    }
}

/// The bytes of a row are no more than the bytes of an image that has a row.
proof fn lemma_row_fits(width: nat, height: nat)
    requires
        height > 0,
    ensures
        BYTES_PER_PIXEL * width <= BYTES_PER_PIXEL * width * height,
{
    assert(BYTES_PER_PIXEL * width <= BYTES_PER_PIXEL * width * height) by (nonlinear_arith)
        requires
            height > 0,
    ;
}

/// A decoded image with eight bits for each of the four channels of a pixel.
#[derive(Debug, PartialEq, Eq)]
pub struct Raster {
    width: u32,
    height: u32,
    pixels: Vec<u8>,
}

impl View for Raster {
    type V = RasterView;

    closed spec fn view(&self) -> RasterView {
        RasterView {
            width: self.width as nat,
            height: self.height as nat,
            pixels: self.pixels@,
        }
    }
}

impl Raster {
    #[verifier::type_invariant]
    spec fn well_formed(self) -> bool {
        &&& self.pixels@.len() == BYTES_PER_PIXEL * self.width * self.height
        &&& BYTES_PER_PIXEL * self.width <= usize::MAX
    }

    /// Makes an image of the given size from its pixel bytes, if there are
    /// exactly as many as the size asks for and the bytes of a row can be
    /// counted on this machine.
    pub fn new(width: u32, height: u32, pixels: Vec<u8>) -> (raster: Option<Raster>)
        ensures
            raster is Some <==> (RasterView {
                width: width as nat,
                height: height as nat,
                pixels: pixels@,
            }).well_formed(),
            raster matches Some(r) ==> r@ == (RasterView {
                width: width as nat,
                height: height as nat,
                pixels: pixels@,
            }),
    {
        if 4 * (width as u128) > usize::MAX as u128 {
            return None;
        }
        assert(4 * (width * height) == BYTES_PER_PIXEL * width * height && width * height
            <= 0xffff_ffff * 0xffff_ffff) by (nonlinear_arith)
            requires
                BYTES_PER_PIXEL == 4,
        ;
        let expected: u128 = 4 * (width as u128 * height as u128);
        if pixels.len() as u128 == expected {
            Some(Raster { width, height, pixels })
        } else {
            None
        }
    }

    /// The number of pixels in a row.
    pub fn width(&self) -> (width: u32)
        ensures
            width == self@.width,
    {
        self.width
    }

    /// The number of rows.
    pub fn height(&self) -> (height: u32)
        ensures
            height == self@.height,
    {
        self.height
    }

    /// The pixel bytes, row by row.
    pub fn pixels(&self) -> (pixels: &[u8])
        ensures
            pixels@ == self@.pixels,
            self@.well_formed(),
    {
        proof {
            use_type_invariant(self);
        }
        self.pixels.as_slice()
    }
}

/// The integer nearest to `numerator / denominator`, a half rounded up.
pub open spec fn rounded_quotient(numerator: nat, denominator: nat) -> nat {
    ((2 * numerator + denominator) / (2 * denominator)) as nat
}

/// The height that keeps the aspect ratio of a `width` by `height` image
/// scaled to the preview width.
pub open spec fn preview_height(width: nat, height: nat) -> nat {
    rounded_quotient(PREVIEW_WIDTH as nat * height, width)
}

/// The buffers that scaling allocates fit into memory: the intermediate one of
/// four 32-bit channels for each pixel of `width` by `new_height`, and the
/// result.
pub open spec fn scaling_fits(width: nat, new_width: nat, new_height: nat) -> bool {
    &&& 4 * BYTES_PER_PIXEL * width * new_height <= isize::MAX
    &&& BYTES_PER_PIXEL * new_width * new_height <= isize::MAX
}

/// The size of the preview of a `width` by `height` image. There is none for
/// an image without pixels, for one so flat that its preview would have no
/// row, and for one whose preview exceeds what the machine can hold.
pub open spec fn preview_dimensions(width: nat, height: nat) -> Option<(nat, nat)> {
    if width == 0 || height == 0 {
        None
    } else if preview_height(width, height) == 0 || preview_height(width, height) > u32::MAX {
        None
    } else if !scaling_fits(width, PREVIEW_WIDTH as nat, preview_height(width, height)) {
        None
    } else {
        Some((PREVIEW_WIDTH as nat, preview_height(width, height)))
    }
}

/// The preview height is the nearest integer to `240 / width * height`: it
/// differs from that quotient by half a pixel at most.
pub proof fn law_preview_height_is_nearest(width: nat, height: nat)
    requires
        width > 0,
    ensures
        -(width as int) <= 2 * (PREVIEW_WIDTH * height - preview_height(width, height) * width)
            < width,
{
    let n = PREVIEW_WIDTH as nat * height;
    let q = preview_height(width, height);
    assert(q == (2 * n + width) / (2 * width));
    assert(q * (2 * width) <= 2 * n + width < q * (2 * width) + 2 * width) by (nonlinear_arith)
        requires
            width > 0,
            q == (2 * n + width) / (2 * width),
    ;
    assert(q * (2 * width) == 2 * (q * width)) by (nonlinear_arith);
}

/// An image that is scaled to its preview keeps its proportions: a preview of
/// an image as wide as the preview has the image's own height.
pub proof fn law_preview_of_preview_width(height: nat)
    ensures
        preview_height(PREVIEW_WIDTH as nat, height) == height,
{
    assert((2 * (240 * height) + 240) / 480 == height);
}

/// Computes the size of the preview of a `width` by `height` image.
pub fn preview_geometry(width: u32, height: u32) -> (size: Option<(u32, u32)>)
    ensures
        match preview_dimensions(width as nat, height as nat) {
            Some((w, h)) => size == Some((w as u32, h as u32)) && w == PREVIEW_WIDTH && h
                <= u32::MAX,
            None => size is None,
        },
{
    if width == 0 || height == 0 {
        return None;
    }
    assert(PREVIEW_WIDTH * height == 240 * height);
    let scaled: u64 = (PREVIEW_WIDTH as u64) * (height as u64);
    let rounded: u64 = (2 * scaled + width as u64) / (2 * (width as u64));
    if rounded == 0 || rounded > u32::MAX as u64 {
        return None;
    }
    assert(16 * (width * rounded) == 4 * BYTES_PER_PIXEL * width * rounded && width * rounded
        <= 0xffff_ffff * 0xffff_ffff) by (nonlinear_arith)
        requires
            BYTES_PER_PIXEL == 4,
            width <= 0xffff_ffff,
            rounded <= 0xffff_ffff,
    ;
    // Sixteen bytes for each pixel of the intermediate image, four for each
    // of the 240 pixels of a row of the result.
    let intermediate: u128 = 16 * (width as u128 * rounded as u128);
    let result: u128 = 960 * (rounded as u128);
    if intermediate > isize::MAX as u128 || result > isize::MAX as u128 {
        return None;
    }
    Some((PREVIEW_WIDTH, rounded as u32))
}

/// The error type of the image crate, carried from a failed call to the place
/// that names the failure.
#[verifier::external_type_specification]
#[verifier::external_body]
pub struct ExImageError(image::ImageError);

/// A decoded image of the image crate, in whatever layout its file had. It is
/// carried from the decoder to the conversion and never looked into.
#[verifier::external_type_specification]
#[verifier::external_body]
pub struct ExDynamicImage(image::DynamicImage);

/// The bytes that the image crate encodes an eight-bit RGBA image to in the
/// codec `kind`: `None` where it reports an error.
pub uninterp spec fn encoded_image(raster: RasterView, kind: ImageKind) -> Option<Seq<u8>>;

/// Decodes `bytes` with `image::io::Reader`, the format set to `kind` so that
/// none is guessed from the content, under the reader's default limits.
/// Nothing is claimed of the outcome: the JPEG decoder picks its arithmetic
/// by the processor it runs on and may start a worker thread, so neither the
/// pixels nor a failure are a function of the bytes.
#[verifier::external_body]
fn decode_image(bytes: &[u8], kind: ImageKind) -> (decoded: Result<
    image::DynamicImage,
    image::ImageError,
>) {
    let mut reader = image::io::Reader::new(std::io::Cursor::new(bytes));
    reader.set_format(
        match kind {
            ImageKind::Png => image::ImageFormat::Png,
            ImageKind::Jpeg => image::ImageFormat::Jpeg,
        },
    );
    reader.decode()
}

/// Converts a decoded image with `DynamicImage::to_rgba8` and takes the
/// result apart. The crate allocates the result for the size of the image
/// with four bytes for each pixel, which is all that is claimed.
#[verifier::external_body]
fn to_rgba8(image: &image::DynamicImage) -> (converted: (u32, u32, Vec<u8>))
    ensures
        converted.2@.len() == BYTES_PER_PIXEL * converted.0 * converted.1,
{
    let rgba = image.to_rgba8();
    (rgba.width(), rgba.height(), rgba.into_raw())
}

/// Scales an eight-bit RGBA image with `image::imageops::resize` and the
/// `Lanczos3` filter. The result has the size asked for. Its pixel values come
/// from floating-point sums over a sine-based kernel and are not described.
/// The crate indexes the source by row and column and allocates both buffers
/// of `scaling_fits`, so the source must have pixels and the buffers must fit.
#[verifier::external_body]
fn resize_lanczos3(pixels: &[u8], width: u32, height: u32, new_width: u32, new_height: u32) -> (scaled:
    Vec<u8>)
    requires
        pixels@.len() == BYTES_PER_PIXEL * width * height,
        width > 0,
        height > 0,
        new_width > 0,
        new_height > 0,
        scaling_fits(width as nat, new_width as nat, new_height as nat),
    ensures
        scaled@.len() == BYTES_PER_PIXEL * new_width * new_height,
{
    let source = image::ImageBuffer::<image::Rgba<u8>, &[u8]>::from_raw(width, height, pixels).unwrap();
    let filter = image::imageops::FilterType::Lanczos3;
    image::imageops::resize(&source, new_width, new_height, filter).into_raw()
}

/// Encodes an eight-bit RGBA image with `ImageBuffer::write_to` into memory,
/// in the codec `kind` with the crate's default settings. The result is a
/// function of the image and the codec, named `encoded_image`. The crate
/// asserts that the buffer has exactly the bytes of the size given, and it
/// counts the bytes of a row before it looks at the number of rows, so that
/// count must fit also where there is no row.
#[verifier::external_body]
fn encode_rgba8(pixels: &[u8], width: u32, height: u32, kind: ImageKind) -> (encoded: Result<
    Vec<u8>,
    image::ImageError,
>)
    requires
        pixels@.len() == BYTES_PER_PIXEL * width * height,
        BYTES_PER_PIXEL * width <= usize::MAX,
    ensures
        match encoded {
            Ok(bytes) => encoded_image(
                RasterView { width: width as nat, height: height as nat, pixels: pixels@ },
                kind,
            ) == Some(bytes@),
            Err(_) => encoded_image(
                RasterView { width: width as nat, height: height as nat, pixels: pixels@ },
                kind,
            ) is None,
        },
{
    let source = image::ImageBuffer::<image::Rgba<u8>, &[u8]>::from_raw(width, height, pixels).unwrap();
    let mut sink = std::io::Cursor::new(Vec::new());
    let format = match kind {
        ImageKind::Png => image::ImageFormat::Png,
        ImageKind::Jpeg => image::ImageFormat::Jpeg,
    };
    match source.write_to(&mut sink, format) {
        Ok(()) => Ok(sink.into_inner()),
        Err(error) => Err(error),
    }
}

/// What is made of an image that came back from the decoder: it is taken
/// if it has pixels and exactly the bytes of its size, and is a decode
/// failure otherwise.
pub open spec fn accepted_image(width: u32, height: u32, pixels: Seq<u8>) -> Result<
    RasterView,
    UploadError,
> {
    if width == 0 || height == 0 || pixels.len() != BYTES_PER_PIXEL * width * height {
        Err(UploadError::DecodeFailure)
    } else {
        Ok(RasterView { width: width as nat, height: height as nat, pixels })
    }
}

/// `outcome` is a possible result of encoding `raster`: its encoding in
/// `kind`, or a storage failure where there is none.
pub open spec fn is_encoding_of(
    raster: RasterView,
    kind: ImageKind,
    outcome: Result<Seq<u8>, UploadError>,
) -> bool {
    outcome == match encoded_image(raster, kind) {
        Some(bytes) => Ok::<Seq<u8>, UploadError>(bytes),
        None => Err(UploadError::StorageFailure),
    }
}

/// `outcome` is a possible result of previewing `source`: a decode failure
/// where `source` has no preview size, and else the encoding of some
/// well-formed image of exactly the preview size.
pub open spec fn is_preview_of(
    source: RasterView,
    kind: ImageKind,
    outcome: Result<Seq<u8>, UploadError>,
) -> bool {
    match preview_dimensions(source.width, source.height) {
        None => outcome == Err::<Seq<u8>, UploadError>(UploadError::DecodeFailure),
        Some((width, height)) => exists|scaled: RasterView|
            scaled.well_formed() && scaled.width == width && scaled.height == height
                && #[trigger] is_encoding_of(scaled, kind, outcome),
    }
}

/// `outcome` is a possible result of previewing a payload declared as
/// `kind`: a decode failure, or a preview of some well-formed image with
/// pixels. Which image a payload decodes to, and whether it decodes at all,
/// is the decoder's to say.
pub open spec fn is_preview_in(kind: ImageKind, outcome: Result<Seq<u8>, UploadError>) -> bool {
    ||| outcome == Err::<Seq<u8>, UploadError>(UploadError::DecodeFailure)
    ||| exists|source: RasterView|
        source.well_formed() && source.width > 0 && source.height > 0 && #[trigger] is_preview_of(
            source,
            kind,
            outcome,
        )
}

/// Every preview of an image is the encoding of an image that is
/// `PREVIEW_WIDTH` wide and as high as the nearest integer to
/// `PREVIEW_WIDTH / width * height` of the image it was made from.
pub proof fn law_preview_keeps_aspect_ratio(source: RasterView, kind: ImageKind, bytes: Seq<u8>)
    requires
        is_preview_of(source, kind, Ok(bytes)),
    ensures
        source.width > 0,
        source.height > 0,
        exists|scaled: RasterView|
            {
                &&& scaled.well_formed()
                &&& scaled.width == PREVIEW_WIDTH
                &&& scaled.height == preview_height(source.width, source.height)
                &&& #[trigger] encoded_image(scaled, kind) == Some(bytes)
            },
        -(source.width as int) <= 2 * (PREVIEW_WIDTH * source.height - preview_height(
            source.width,
            source.height,
        ) * source.width) < source.width,
{
    let scaled = choose|scaled: RasterView|
        scaled.well_formed() && scaled.width == PREVIEW_WIDTH && scaled.height == preview_height(
            source.width,
            source.height,
        ) && #[trigger] is_encoding_of(scaled, kind, Ok(bytes));
    assert(encoded_image(scaled, kind) == Some(bytes));
    law_preview_height_is_nearest(source.width, source.height);
}

/// A request that breaks off while a field is previewed does so with one of
/// two errors: the payload gave no image to preview, or the preview could not
/// be encoded.
pub proof fn law_preview_errors_are_two(kind: ImageKind, error: UploadError)
    requires
        is_preview_in(kind, Err(error)),
    ensures
        error == UploadError::DecodeFailure || error == UploadError::StorageFailure,
{
}

/// The bytes of an outcome, seen as a sequence.
pub open spec fn outcome_view(outcome: Result<Vec<u8>, UploadError>) -> Result<
    Seq<u8>,
    UploadError,
> {
    match outcome {
        Ok(bytes) => Ok(bytes@),
        Err(error) => Err(error),
    }
}

/// Takes an image as it came back from the decoder, or refuses it: an image
/// without pixels is a decode failure, and so is one whose bytes are not
/// those of its size.
pub fn accept_decoded(width: u32, height: u32, pixels: Vec<u8>) -> (taken: Result<
    Raster,
    UploadError,
>)
    ensures
        match taken {
            Ok(raster) => accepted_image(width, height, pixels@) == Ok::<RasterView, UploadError>(
                raster@,
            ),
            Err(error) => accepted_image(width, height, pixels@) == Err::<RasterView, UploadError>(
                error,
            ),
        },
        taken matches Ok(raster) ==> raster@.well_formed(),
{
    if width == 0 || height == 0 {
        return Err(UploadError::DecodeFailure);
    }
    // What a vector holds can be counted, and a row is no more than that.
    let count: usize = pixels.len();
    proof {
        lemma_row_fits(width as nat, height as nat);
    }
    match Raster::new(width, height, pixels) {
        Some(raster) => Ok(raster),
        None => Err(UploadError::DecodeFailure),
    }
}

/// Decodes a payload as the codec it was declared as; the content is never
/// used to guess another. Whether a payload decodes is the decoder's to say;
/// what it hands back is taken as `accept_decoded` says, so an image that
/// comes out has pixels, and every failure is a decode failure.
pub fn decode(payload: &[u8], kind: ImageKind) -> (decoded: Result<Raster, UploadError>)
    ensures
        decoded matches Ok(raster) ==> raster@.well_formed() && raster@.width > 0
            && raster@.height > 0,
        decoded matches Err(error) ==> error == UploadError::DecodeFailure,
{
    match decode_image(payload, kind) {
        Ok(image) => {
            let (width, height, pixels) = to_rgba8(&image);
            accept_decoded(width, height, pixels)
        },
        Err(_) => Err(UploadError::DecodeFailure),
    }
}

/// Encodes an image in the given codec. An image that the codec cannot hold
/// is a storage failure.
pub fn encode(raster: &Raster, kind: ImageKind) -> (encoded: Result<Vec<u8>, UploadError>)
    ensures
        is_encoding_of(raster@, kind, outcome_view(encoded)),
{
    proof {
        use_type_invariant(raster);
    }
    match encode_rgba8(raster.pixels.as_slice(), raster.width, raster.height, kind) {
        Ok(bytes) => Ok(bytes),
        Err(_) => Err(UploadError::StorageFailure),
    }
}

/// Scales an image to the preview width with a three-lobe Lanczos filter,
/// keeping its aspect ratio. The pixel values of the result are the filter's
/// and are not described.
pub fn scale_to_preview(source: &Raster) -> (scaled: Option<Raster>)
    ensures
        match preview_dimensions(source@.width, source@.height) {
            Some((width, height)) => scaled matches Some(raster) && raster@.well_formed()
                && raster@.width == width && raster@.height == height,
            None => scaled is None,
        },
{
    proof {
        use_type_invariant(source);
    }
    match preview_geometry(source.width, source.height) {
        None => None,
        Some((width, height)) => {
            let pixels = resize_lanczos3(
                source.pixels.as_slice(),
                source.width,
                source.height,
                width,
                height,
            );
            proof {
                lemma_row_fits(width as nat, height as nat);
            }
            Some(Raster { width, height, pixels })
        },
    }
}

/// Derives the encoded preview of a decoded image: scaled to the preview
/// width, in the codec of the image it was decoded from.
pub fn render_preview(source: &Raster, kind: ImageKind) -> (preview: Result<Vec<u8>, UploadError>)
    ensures
        is_preview_of(source@, kind, outcome_view(preview)),
{
    match scale_to_preview(source) {
        None => Err(UploadError::DecodeFailure),
        Some(scaled) => {
            let preview = encode(&scaled, kind);
            assert(is_encoding_of(scaled@, kind, outcome_view(preview)));
            preview
        },
    }
}

/// The preview generator: decodes a payload as `kind` and derives the encoded
/// preview of what it decodes to, as `render_preview` does.
pub fn generate_preview(payload: &[u8], kind: ImageKind) -> (preview: Result<Vec<u8>, UploadError>)
    ensures
        is_preview_in(kind, outcome_view(preview)),
{
    match decode(payload, kind) {
        Ok(source) => {
            let preview = render_preview(&source, kind);
            assert(is_preview_of(source@, kind, outcome_view(preview)));
            preview
        },
        Err(error) => Err(error),
    }
}

} // verus!
