//! Images: decoding an image file's bytes, with the format taken from the
//! file's path or guessed from its content, and the nonzero image size.
//!
//! Reading the file is the caller's work; decoding is done by the `image`
//! crate behind the trusted items of this module.

use vstd::prelude::*;

verus! {

/// The image format type of the `image` crate.
#[verifier::external_type_specification]
#[verifier::external_body]
pub struct ExImageFormat(image::ImageFormat);

/// The error type of the `image` crate.
#[verifier::external_type_specification]
#[verifier::external_body]
pub struct ExImageError(image::ImageError);

/// The format `image::ImageFormat::from_path` reads off a path's
/// extension, if it knows the extension.
pub uninterp spec fn path_format(path: Seq<char>) -> Option<image::ImageFormat>;

/// The format `image::guess_format` recognizes from the magic bytes at
/// the start of an image, if any.
pub uninterp spec fn content_format(bytes: Seq<u8>) -> Option<image::ImageFormat>;

/// What decoding an image yields: its width and height in pixels and, when
/// it is stored as 8-bit RGBA, its pixel bytes.
pub struct DecodedImage {
    pub width: u32,
    pub height: u32,
    pub rgba8: Option<Seq<u8>>,
}

/// What `image::load_from_memory_with_format` decodes the bytes into in the
/// given format, if it can decode them.
pub uninterp spec fn decoded_image(bytes: Seq<u8>, format: image::ImageFormat) -> Option<
    DecodedImage,
>;

/// Whether the RGBA bytes of a decoded image, when it has them, are one
/// 4-byte pixel for each of its `width * height` pixels.
pub open spec fn rgba8_fits(image: DecodedImage) -> bool {
    image.rgba8 matches Some(p) ==> p.len() == 4 * image.width * image.height
}

/// Whether the bytes decode in the given format.
pub open spec fn decodes(bytes: Seq<u8>, format: image::ImageFormat) -> bool {
    decoded_image(bytes, format) is Some
}

/// The view of pixel bytes that may be absent.
pub open spec fn pixels_view(p: Option<Vec<u8>>) -> Option<Seq<u8>> {
    match p {
        Some(v) => Some(v@),
        None => None,
    }
}

/// Calls `image::ImageFormat::from_path`, which maps the path's extension
/// (case-insensitively) to a format. The result is named by `path_format`;
/// which extensions it knows is left to the crate.
#[verifier::external_body]
fn format_from_path(path: &str) -> (r: Option<image::ImageFormat>)
    ensures
        r == path_format(path@),
{
    image::ImageFormat::from_path(path).ok()
}

/// Calls `image::guess_format`, which compares the start of the bytes
/// with the signatures of the formats it knows. The result is named by
/// `content_format`.
#[verifier::external_body]
fn format_from_content(bytes: &[u8]) -> (r: Option<image::ImageFormat>)
    ensures
        r == content_format(bytes@),
{
    image::guess_format(bytes).ok()
}

/// Calls `image::load_from_memory_with_format`, which decodes the bytes as
/// an image of the given format, and reads off the decoded image its
/// dimensions (`GenericImageView::dimensions`) and, when it is stored as
/// 8-bit RGBA (`DynamicImage::as_rgba8`), a copy of its pixel bytes. What
/// it yields is named by `decoded_image`. An 8-bit RGBA image is decoded
/// into a buffer of exactly the decoder's total byte count, four bytes per
/// pixel (`decoder_to_vec`, `ImageDecoder::total_bytes`), and the copy is
/// of the whole buffer.
#[verifier::external_body]
fn decode_with_format(bytes: &[u8], format: image::ImageFormat) -> (r: Result<
    (u32, u32, Option<Vec<u8>>),
    image::ImageError,
>)
    ensures
        r is Ok <==> decoded_image(bytes@, format) is Some,
        r matches Ok((w, h, p)) ==> decoded_image(bytes@, format) == Some(
            DecodedImage { width: w, height: h, rgba8: pixels_view(p) },
        ),
        r matches Ok((w, h, Some(p))) ==> p@.len() == 4 * w * h,
{
    match image::load_from_memory_with_format(bytes, format) {
        Ok(decoded) => {
            let (w, h) = image::GenericImageView::dimensions(&decoded);
            let pixels = match decoded.as_rgba8() {
                Some(buffer) => Some(buffer.to_vec()),
                None => None,
            };
            Ok((w, h, pixels))
        },
        Err(e) => Err(e),
    }
}

/// Why an image could not be loaded.
#[derive(Debug)]
pub enum ImageLoadError {
    /// No format could be determined for the image.
    UnsupportedFormat,
    /// The bytes could not be decoded in the determined format.
    Decoding(image::ImageError),
    /// The image has no pixels: its width or its height is zero.
    EmptyImage,
}

/// The format an image is decoded with: the one its content shows when
/// guessing is asked for and succeeds, else the one its path shows.
pub open spec fn chosen_format(path: Seq<char>, bytes: Seq<u8>, guess: bool) -> Option<
    image::ImageFormat,
> {
    if guess {
        match content_format(bytes) {
            Some(f) => Some(f),
            None => path_format(path),
        }
    } else {
        path_format(path)
    }
}

/// Whether an image with this path and content loads.
pub open spec fn loads(path: Seq<char>, bytes: Seq<u8>, guess: bool) -> bool {
    match chosen_format(path, bytes, guess) {
        Some(f) => decodes(bytes, f),
        None => false,
    }
}

/// What a load failure is when it fails: no format, or a decoding error.
pub open spec fn load_failure_kind(
    path: Seq<char>,
    bytes: Seq<u8>,
    guess: bool,
    e: ImageLoadError,
) -> bool {
    match chosen_format(path, bytes, guess) {
        None => e is UnsupportedFormat,
        Some(f) => e is Decoding,
    }
}

/// Choose the format of an image file and decode its bytes in it.
fn decode_file(filepath: &str, bytes: &[u8], guess_the_format: bool) -> (r: Result<
    (u32, u32, Option<Vec<u8>>),
    ImageLoadError,
>)
    ensures
        r is Ok <==> loads(filepath@, bytes@, guess_the_format),
        r matches Err(e) ==> load_failure_kind(filepath@, bytes@, guess_the_format, e),
        r matches Ok((w, h, p)) ==> decoded_image(
            bytes@,
            chosen_format(filepath@, bytes@, guess_the_format)->0,
        ) == Some(DecodedImage { width: w, height: h, rgba8: pixels_view(p) }),
        r matches Ok((w, h, Some(p))) ==> p@.len() == 4 * w * h,
{
    let path_guess = format_from_path(filepath);
    let format = if guess_the_format {
        match format_from_content(bytes) {
            Some(f) => Some(f),
            None => path_guess,
        }
    } else {
        path_guess
    };
    match format {
        None => Err(ImageLoadError::UnsupportedFormat),
        Some(f) => match decode_with_format(bytes, f) {
            Ok(decoded) => Ok(decoded),
            Err(e) => Err(ImageLoadError::Decoding(e)),
        },
    }
}

/// The image that loading these bytes gives, when it loads.
pub open spec fn loaded_image(path: Seq<char>, bytes: Seq<u8>, guess: bool) -> DecodedImage {
    decoded_image(bytes, chosen_format(path, bytes, guess)->0)->0
}

/// A decoded image: its width and height and, when it is stored as 8-bit
/// RGBA, its pixel bytes.
pub struct DynamicImage {
    rgba8: Option<Vec<u8>>,
    width: u32,
    height: u32,
}

impl View for DynamicImage {
    type V = DecodedImage;

    closed spec fn view(&self) -> DecodedImage {
        DecodedImage { width: self.width, height: self.height, rgba8: pixels_view(self.rgba8) }
    }
}

impl DynamicImage {
    #[verifier::type_invariant]
    closed spec fn inv(self) -> bool {
        rgba8_fits(self@)
    }

    /// Decode the bytes of an image file; the format is taken from the
    /// file's path. If you want the content to decide the format, which
    /// does not depend on file extensions, see
    /// [`new_with_guessed_format`](DynamicImage::new_with_guessed_format).
    pub fn new(filepath: &str, bytes: &[u8]) -> (r: Result<Self, ImageLoadError>)
        ensures
            r is Ok <==> loads(filepath@, bytes@, false),
            r matches Err(e) ==> load_failure_kind(filepath@, bytes@, false, e),
            r matches Ok(img) ==> img@ == loaded_image(filepath@, bytes@, false),
    {
        DynamicImage::new_handler(filepath, bytes, false)
    }

    /// Decode the bytes of an image file; the format is guessed from the
    /// content first, and taken from the file's path if the guess fails.
    pub fn new_with_guessed_format(filepath: &str, bytes: &[u8]) -> (r: Result<
        Self,
        ImageLoadError,
    >)
        ensures
            r is Ok <==> loads(filepath@, bytes@, true),
            r matches Err(e) ==> load_failure_kind(filepath@, bytes@, true, e),
            r matches Ok(img) ==> img@ == loaded_image(filepath@, bytes@, true),
    {
        DynamicImage::new_handler(filepath, bytes, true)
    }

    fn new_handler(filepath: &str, bytes: &[u8], guess_the_format: bool) -> (r: Result<
        Self,
        ImageLoadError,
    >)
        ensures
            r is Ok <==> loads(filepath@, bytes@, guess_the_format),
            r matches Err(e) ==> load_failure_kind(filepath@, bytes@, guess_the_format, e),
            r matches Ok(img) ==> img@ == loaded_image(filepath@, bytes@, guess_the_format),
    {
        match decode_file(filepath, bytes, guess_the_format) {
            Ok((width, height, rgba8)) => Ok(DynamicImage { rgba8, width, height }),
            Err(e) => Err(e),
        }
    }

    /// The pixels as 8-bit RGBA bytes, when the image is stored that way:
    /// four bytes for each of its `width * height` pixels.
    pub fn as_rgba8_bytes(&self) -> (r: Option<&[u8]>)
        ensures
            match r {
                Some(b) => self@.rgba8 == Some(b@) && b@.len() == 4 * self@.width * self@.height,
                None => self@.rgba8 is None,
            },
    {
        proof {
            use_type_invariant(self);
        }
        match &self.rgba8 {
            Some(v) => Some(v.as_slice()),
            None => None,
        }
    }

    /// The width and height of this image.
    pub fn dimensions(&self) -> (r: (u32, u32))
        ensures
            r == (self@.width, self@.height),
    {
        (self.width, self.height)
    }

    /// The width of this image.
    pub fn width(&self) -> (r: u32)
        ensures
            r == self@.width,
    {
        self.width
    }

    /// The height of this image.
    pub fn height(&self) -> (r: u32)
        ensures
            r == self@.height,
    {
        self.height
    }
}

/// Calls `std::num::NonZeroU32::try_from`, which fails exactly on zero,
/// and hands back the value it accepted.
#[verifier::external_body]
fn nonzero_u32(v: u32) -> (r: Result<u32, std::num::TryFromIntError>)
    ensures
        r is Ok <==> v != 0,
        r matches Ok(x) ==> x == v,
{
    match std::num::NonZeroU32::try_from(v) {
        Ok(n) => Ok(n.get()),
        Err(e) => Err(e),
    }
}

/// Describes the size of an image.
///
/// Known implementations: [`DiffuseImageSize`].
pub trait ImageSize: Sized {
    /// A size of the given width and height, if neither is zero.
    fn new(width: u32, height: u32) -> Option<Self>;

    /// A size of the given width and height, neither of which may be zero.
    fn new_unchecked(width: u32, height: u32) -> Self
        requires
            width > 0,
            height > 0,
    ;

    /// A size of the given width and height, or the conversion error of
    /// the first of them that is zero.
    fn try_new(width: u32, height: u32) -> Result<Self, std::num::TryFromIntError>;

    /// Returns the image width.
    fn width(&self) -> u32;

    /// Returns the image height.
    fn height(&self) -> u32;

    /// Returns the image width and height (in that order) as tuple.
    fn as_tuple(&self) -> (u32, u32);
}

/// The width and height of a diffuse image; neither is ever zero.
#[derive(Clone, Copy, Debug)]
pub struct DiffuseImageSize {
    width: u32,
    height: u32,
}

impl View for DiffuseImageSize {
    type V = (u32, u32);

    closed spec fn view(&self) -> (u32, u32) {
        (self.width, self.height)
    }
}

impl DiffuseImageSize {
    #[verifier::type_invariant]
    closed spec fn inv(self) -> bool {
        self.width > 0 && self.height > 0
    }

    /// The size of a pair `(width, height)`, if neither is zero.
    pub fn from_tuple(tuple: (u32, u32)) -> (r: Option<Self>)
        ensures
            r is Some <==> (tuple.0 > 0 && tuple.1 > 0),
            r matches Some(s) ==> s@ == tuple,
    {
        <DiffuseImageSize as ImageSize>::new(tuple.0, tuple.1)
    }

    /// The size of an array `[width, height]`, if neither is zero.
    pub fn from_array(array: [u32; 2]) -> (r: Option<Self>)
        ensures
            r is Some <==> (array@[0] > 0 && array@[1] > 0),
            r matches Some(s) ==> s@ == (array@[0], array@[1]),
    {
        <DiffuseImageSize as ImageSize>::new(array[0], array[1])
    }
}

impl ImageSize for DiffuseImageSize {
    fn new(width: u32, height: u32) -> (r: Option<Self>)
        ensures
            r is Some <==> (width > 0 && height > 0),
            r matches Some(s) ==> s@ == (width, height),
    {
        if width == 0 {
            return None;
        }
        if height == 0 {
            return None;
        }
        Some(DiffuseImageSize { width, height })
    }

    fn new_unchecked(width: u32, height: u32) -> (r: Self)
        ensures
            r@ == (width, height),
    {
        DiffuseImageSize { width, height }
    }

    fn try_new(width: u32, height: u32) -> (r: Result<Self, std::num::TryFromIntError>)
        ensures
            r is Ok <==> (width > 0 && height > 0),
            r matches Ok(s) ==> s@ == (width, height),
    {
        let w = match nonzero_u32(width) {
            Ok(w) => w,
            Err(e) => return Err(e),
        };
        let h = match nonzero_u32(height) {
            Ok(h) => h,
            Err(e) => return Err(e),
        };
        Ok(DiffuseImageSize { width: w, height: h })
    }

    /// The value is nonzero.
    fn width(&self) -> (r: u32)
        ensures
            r == self@.0,
            r > 0,
    {
        proof {
            use_type_invariant(self);
        }
        self.width
    }

    /// The value is nonzero.
    fn height(&self) -> (r: u32)
        ensures
            r == self@.1,
            r > 0,
    {
        proof {
            use_type_invariant(self);
        }
        self.height
    }

    /// The values are nonzero.
    fn as_tuple(&self) -> (r: (u32, u32))
        ensures
            r == self@,
            r.0 > 0 && r.1 > 0,
    {
        proof {
            use_type_invariant(self);
        }
        (self.width, self.height)
    }
}

/// Whether an image with this path and content loads with no zero side.
pub open spec fn loads_nonempty(path: Seq<char>, bytes: Seq<u8>, guess: bool) -> bool {
    loads(path, bytes, guess) && loaded_image(path, bytes, guess).width > 0 && loaded_image(
        path,
        bytes,
        guess,
    ).height > 0
}

/// What loading a diffuse image yields, and why it fails when it does.
pub open spec fn diffuse_load_result(
    path: Seq<char>,
    bytes: Seq<u8>,
    guess: bool,
    r: Result<DiffuseImage, ImageLoadError>,
) -> bool {
    match r {
        Ok(img) => loads_nonempty(path, bytes, guess) && img@ == loaded_image(path, bytes, guess),
        Err(e) => !loads_nonempty(path, bytes, guess) && (if loads(path, bytes, guess) {
            e is EmptyImage
        } else {
            load_failure_kind(path, bytes, guess, e)
        }),
    }
}

/// A diffuse image: a decoded image with a nonzero size.
pub struct DiffuseImage {
    image: DynamicImage,
    size: DiffuseImageSize,
}

impl View for DiffuseImage {
    type V = DecodedImage;

    closed spec fn view(&self) -> DecodedImage {
        self.image@
    }
}

impl DiffuseImage {
    #[verifier::type_invariant]
    closed spec fn inv(self) -> bool {
        self.size@ == (self.image@.width, self.image@.height)
    }

    fn handle_new(filepath: &str, bytes: &[u8], guess_the_format: bool) -> (r: Result<
        Self,
        ImageLoadError,
    >)
        ensures
            diffuse_load_result(filepath@, bytes@, guess_the_format, r),
    {
        let image = match DynamicImage::new_handler(filepath, bytes, guess_the_format) {
            Ok(image) => image,
            Err(e) => return Err(e),
        };
        let (width, height) = image.dimensions();
        match <DiffuseImageSize as ImageSize>::new(width, height) {
            Some(size) => Ok(DiffuseImage { image, size }),
            None => Err(ImageLoadError::EmptyImage),
        }
    }

    /// Decode an image file's bytes; the format is taken from its path.
    pub fn load(filepath: &str, bytes: &[u8]) -> (r: Result<Self, ImageLoadError>)
        ensures
            diffuse_load_result(filepath@, bytes@, false, r),
    {
        DiffuseImage::handle_new(filepath, bytes, false)
    }

    /// Decode an image file's bytes; the format is guessed from the
    /// content first, and taken from its path if the guess fails.
    pub fn load_with_guessed_format(filepath: &str, bytes: &[u8]) -> (r: Result<
        Self,
        ImageLoadError,
    >)
        ensures
            diffuse_load_result(filepath@, bytes@, true, r),
    {
        DiffuseImage::handle_new(filepath, bytes, true)
    }

    /// Get the bytes from the image as 8bit RGBA: four per pixel.
    pub fn as_rgba8_bytes(&self) -> (r: Option<&[u8]>)
        ensures
            match r {
                Some(b) => self@.rgba8 == Some(b@) && b@.len() == 4 * self@.width * self@.height,
                None => self@.rgba8 is None,
            },
    {
        self.image.as_rgba8_bytes()
    }

    /// The width and height of this image; neither is zero.
    pub fn size(&self) -> (r: DiffuseImageSize)
        ensures
            r@ == (self@.width, self@.height),
    {
        proof {
            use_type_invariant(self);
        }
        self.size
    }
}

/// The integer types an index buffer can hold: `u16` and `u32`.
pub trait Index: Default + PartialEq + From<u8> + TryFrom<u64> {

}

impl Index for u16 {

}

impl Index for u32 {

}

} // verus!
